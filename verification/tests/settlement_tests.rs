use swiv_privacy::errors::CustomError;
use swiv_privacy::settlement::{execute_settlement_logic, settle_bet};
use swiv_privacy::shared::{
    emergency_refund,
    refund_bet_fixed,
    refund_bet_infinite,
    update_bet_fixed,
    update_bet_infinite,
};
use swiv_privacy::state::{
    AssetConfig,
    BetStatus,
    FixedMarket,
    LiquidityVault,
    MarketMode,
    MarketType,
    UserBet,
    WinCriterion,
};

fn asset() -> AssetConfig {
    AssetConfig {
        symbol: 11,
        pyth_feed: 90,
        volatility_factor: 10_000,
        mercy_buffer_bps: 500,
        use_pyth_volatility: false,
    }
}

fn vault(assets: u64, exposure: u64) -> LiquidityVault {
    LiquidityVault {
        token_mint: 40,
        asset_symbol: 11,
        total_assets: assets,
        total_shares: assets,
        total_exposure: exposure,
        accumulated_fees: 0,
    }
}

fn revealed_bet() -> UserBet {
    UserBet {
        owner: 7,
        market_identifier: 11,
        market_type: MarketType::Infinite,
        deposit: 1000,
        end_timestamp: 5000,
        payout_multiplier: 10_000,
        creation_ts: 100,
        update_count: 0,
        calculated_weight: 0,
        is_weight_added: false,
        entry_price: 100,
        volatility_factor_at_entry: 10_000,
        referrer: None,
        commitment: [1u8; 32],
        is_revealed: true,
        prediction_low: 100,
        prediction_high: 200,
        prediction_target: 150,
        status: BetStatus::Active,
    }
}

fn house_market(mode: MarketMode) -> FixedMarket {
    FixedMarket {
        admin: 1,
        name: 21,
        token_mint: 40,
        start_time: 0,
        end_time: 1000,
        vault_balance: 50_000,
        mode,
        criterion: WinCriterion::Range,
        max_accuracy_buffer: 50,
        conviction_bonus_bps: 1000,
        resolution_target: 0,
        is_resolved: false,
        resolution_ts: 0,
        total_weight: 0,
        weight_finalized: false,
        locked_for_payouts: 10_000,
    }
}

#[test]
fn settle_win_pays_and_releases_exposure() {
    let mut bet = revealed_bet();
    let mut v = vault(3000, 1000);
    let outcome = settle_bet(&mut bet, &mut v, &asset(), 150, false).unwrap();
    // Implied multiplier caps declared at 1x; at the target the full
    // multiplier applies: payout = deposit + 1000.
    assert_eq!(outcome.user_payout, 2000);
    assert_eq!(outcome.referrer_fee, 0);
    assert_eq!(outcome.forced_fee, 0);
    assert_eq!(bet.status, BetStatus::Settled);
    assert_eq!(v.total_exposure, 0);
    assert_eq!(v.total_assets, 1000);
    assert!(outcome.event.is_win);
    assert_eq!(outcome.event.outcome_price, 150);
    assert_eq!(outcome.event.payout, 2000);
    assert_eq!(outcome.event.refund_amount, 0);
    assert!(!outcome.event.forced_by_admin);
}

#[test]
fn settle_twice_is_rejected_without_effects() {
    let mut bet = revealed_bet();
    let mut v = vault(3000, 1000);
    settle_bet(&mut bet, &mut v, &asset(), 150, false).unwrap();
    let before_vault = v;
    let r = settle_bet(&mut bet, &mut v, &asset(), 150, false);
    assert_eq!(r, Err(CustomError::AlreadySettled));
    assert_eq!(bet.status, BetStatus::Settled);
    assert_eq!(v.total_assets, before_vault.total_assets);
    assert_eq!(v.total_exposure, before_vault.total_exposure);
}

#[test]
fn unrevealed_bet_settles_as_a_void_range() {
    // The engine deliberately settles un-revealed bets: the all-zero
    // prediction is an empty range, so the deposit comes straight back.
    let mut bet = revealed_bet();
    bet.is_revealed = false;
    bet.prediction_low = 0;
    bet.prediction_high = 0;
    bet.prediction_target = 0;
    let mut v = vault(3000, 1000);
    let outcome = settle_bet(&mut bet, &mut v, &asset(), 150, false).unwrap();
    assert!(!outcome.event.is_win);
    assert_eq!(outcome.user_payout, 1000);
    assert_eq!(bet.status, BetStatus::Settled);
}

#[test]
fn forced_settlement_forfeits_losing_refunds() {
    let mut bet = revealed_bet();
    let mut v = vault(3000, 1000);
    // Price 205 misses by 5 with limit 10: the bettor would get 250 back,
    // but the forced path forfeits it into the vault.
    let outcome = execute_settlement_logic(&mut bet, &mut v, &asset(), 205, false, true).unwrap();
    assert_eq!(outcome.user_payout, 0);
    assert!(outcome.event.forced_by_admin);
    // Outflow 250 left, then the forfeit came back.
    assert_eq!(v.total_assets, 3000);
}

#[test]
fn refund_returns_deposit_minus_penalty() {
    let mut bet = revealed_bet();
    bet.is_revealed = false;
    let mut v = vault(3000, 1000);
    let (refund, penalty) = refund_bet_infinite(&mut bet, &mut v, 7, 6000).unwrap();
    assert_eq!(penalty, 10);
    assert_eq!(refund, 990);
    assert_eq!(bet.status, BetStatus::Settled);
    assert_eq!(v.total_assets, 2000);
    // The reserved exposure is deliberately not released on this path.
    assert_eq!(v.total_exposure, 1000);
}

#[test]
fn refund_rejects_revealed_early_and_settled_bets() {
    let mut v = vault(3000, 1000);
    let mut revealed = revealed_bet();
    assert_eq!(
        refund_bet_infinite(&mut revealed, &mut v, 7, 6000),
        Err(CustomError::CannotRefundRevealed)
    );
    let mut early = revealed_bet();
    early.is_revealed = false;
    assert_eq!(
        refund_bet_infinite(&mut early, &mut v, 7, 5000),
        Err(CustomError::SettlementTooEarly)
    );
    let mut settled = revealed_bet();
    settled.is_revealed = false;
    settled.status = BetStatus::Settled;
    assert_eq!(
        refund_bet_infinite(&mut settled, &mut v, 7, 6000),
        Err(CustomError::AlreadySettled)
    );
    let mut stranger = revealed_bet();
    stranger.is_revealed = false;
    assert_eq!(
        refund_bet_infinite(&mut stranger, &mut v, 9, 6000),
        Err(CustomError::Unauthorized)
    );
}

#[test]
fn fixed_market_refund_draws_from_the_market_balance() {
    let mut bet = revealed_bet();
    bet.is_revealed = false;
    bet.market_type = MarketType::Fixed;
    bet.market_identifier = 21;
    let mut m = house_market(MarketMode::House);
    let (refund, penalty) = refund_bet_fixed(&mut bet, &mut m, 7, 6000).unwrap();
    assert_eq!((refund, penalty), (990, 10));
    assert_eq!(m.vault_balance, 49_000);
    assert_eq!(bet.status, BetStatus::Settled);
}

#[test]
fn emergency_refund_needs_the_timeout_and_repays_in_full() {
    let mut bet = revealed_bet();
    let mut v = vault(3000, 1000);
    assert_eq!(
        emergency_refund(&mut bet, &mut v, 7, 5030),
        Err(CustomError::TimeoutNotMet)
    );
    let refund = emergency_refund(&mut bet, &mut v, 7, 5061).unwrap();
    assert_eq!(refund, 1000);
    assert_eq!(bet.status, BetStatus::Settled);
    assert_eq!(v.total_assets, 2000);
    assert_eq!(v.total_exposure, 0);
}

#[test]
fn infinite_update_halves_the_multiplier_and_frees_exposure() {
    let mut bet = revealed_bet();
    let mut v = vault(3000, 1000);
    let r = update_bet_infinite(&mut bet, &mut v, 7, true, 200, 110, 190, 160);
    assert_eq!(r, Ok(()));
    assert_eq!(bet.payout_multiplier, 5_000);
    assert_eq!(bet.update_count, 1);
    assert_eq!(bet.creation_ts, 200);
    assert_eq!(bet.prediction_low, 110);
    assert_eq!(bet.prediction_high, 190);
    assert_eq!(bet.prediction_target, 160);
    // Old profit 1000, new profit 500: 500 released.
    assert_eq!(v.total_exposure, 500);
}

#[test]
fn fixed_update_applies_decay_and_conviction_penalty() {
    let mut bet = revealed_bet();
    bet.market_type = MarketType::Fixed;
    bet.market_identifier = 21;
    let mut m = house_market(MarketMode::House);
    // At t=500 the decay factor is 5000; conviction penalty of 1000 bps
    // leaves 90% of that: 10000 * 5000/10000 * 9000/10000 = 4500.
    let r = update_bet_fixed(&mut bet, &mut m, 7, true, 500, 110, 190, 160);
    assert_eq!(r, Ok(()));
    assert_eq!(bet.payout_multiplier, 4_500);
    assert_eq!(bet.update_count, 1);
    // Old profit 1000, new profit 450: the lock shrinks by 550.
    assert_eq!(m.locked_for_payouts, 9_450);
}

#[test]
fn update_requires_permission_and_an_active_bet() {
    let mut bet = revealed_bet();
    let mut v = vault(3000, 1000);
    assert_eq!(
        update_bet_infinite(&mut bet, &mut v, 7, false, 200, 1, 2, 3),
        Err(CustomError::Unauthorized)
    );
    bet.status = BetStatus::Settled;
    assert_eq!(
        update_bet_infinite(&mut bet, &mut v, 7, true, 200, 1, 2, 3),
        Err(CustomError::AlreadySettled)
    );
}

#[test]
fn forced_settlement_takes_the_flat_fee_from_large_payouts() {
    let mut bet = revealed_bet();
    bet.deposit = 2_000_000;
    bet.payout_multiplier = 10_000;
    let mut v = vault(10_000_000, 2_000_000);
    // A win at the target doubles the deposit; 4,000,000 is over the
    // forced-path threshold, so a flat 1,000,000 goes to the fee wallet.
    let outcome = execute_settlement_logic(&mut bet, &mut v, &asset(), 150, false, true).unwrap();
    assert!(outcome.event.is_win);
    assert_eq!(outcome.forced_fee, 1_000_000);
    assert_eq!(outcome.user_payout, 3_000_000);
}

#[test]
fn placement_without_a_deposit_margin_can_outrun_the_backing() {
    // The placement check compares exposure plus new profit against the
    // assets alone, deposits included. A tiny stake declaring a huge
    // multiplier can therefore consume the margin that backs an earlier
    // bet's deposit, and settling that earlier bet leaves the exposure
    // above the assets. The solvency law's placement guard demands the
    // extra margin for exactly this reason.
    let config = swiv_privacy::state::GlobalConfig {
        admin: 1,
        treasury_wallet: 2,
        protocol_fee_bps: 0,
        house_fee_bps: 0,
        parimutuel_fee_bps: 0,
        paused: false,
        allowed_assets: vec![40],
        batch_settle_wait_secs: 0,
    };
    let a = asset();
    let mut v = vault(0, 0);
    v.total_shares = 0;
    let (b1, _) = swiv_privacy::infinite_market::place_bet(
        &config, &a, &mut v, 7, 100, 1000, 0, [1u8; 32], 100, None, 0,
    )
    .unwrap();
    let (_b2, _) = swiv_privacy::infinite_market::place_bet(
        &config, &a, &mut v, 8, 1, 1000, 990_000, [2u8; 32], 100, None, 0,
    )
    .unwrap();
    assert_eq!(v.total_assets, 101);
    assert_eq!(v.total_exposure, 99);
    // Reveal-equivalent state for the first bet, then settle it at a
    // winning price: its declared multiplier is zero, so it breaks even.
    let mut b1 = b1;
    b1.is_revealed = true;
    b1.prediction_low = 100;
    b1.prediction_high = 200;
    b1.prediction_target = 150;
    let outcome = settle_bet(&mut b1, &mut v, &a, 150, false).unwrap();
    assert_eq!(outcome.user_payout, 100);
    assert!(v.total_exposure > v.total_assets);
}

#[test]
fn parimutuel_update_only_restamps_the_bet() {
    let mut bet = revealed_bet();
    bet.market_type = MarketType::Fixed;
    bet.market_identifier = 21;
    let mut m = house_market(MarketMode::Parimutuel);
    let before_market = m;
    update_bet_fixed(&mut bet, &mut m, 7, true, 500, 110, 190, 160).unwrap();
    assert_eq!(bet.payout_multiplier, 10_000);
    assert_eq!(bet.update_count, 1);
    assert_eq!(bet.creation_ts, 500);
    assert_eq!(bet.prediction_target, 160);
    assert_eq!(m.locked_for_payouts, before_market.locked_for_payouts);
    assert_eq!(m.vault_balance, before_market.vault_balance);
}

#[test]
fn emergency_refund_is_owner_only_and_terminal() {
    let mut bet = revealed_bet();
    let mut v = vault(3000, 1000);
    assert_eq!(
        emergency_refund(&mut bet, &mut v, 9, 6000),
        Err(CustomError::Unauthorized)
    );
    emergency_refund(&mut bet, &mut v, 7, 6000).unwrap();
    assert_eq!(
        emergency_refund(&mut bet, &mut v, 7, 6000),
        Err(CustomError::AlreadySettled)
    );
}
