use swiv_privacy::admin::{
    config_asset,
    initialize_protocol,
    set_pause,
    transfer_admin,
    update_config,
};
use swiv_privacy::batch::{batch_calculate_outcome, batch_settle};
use swiv_privacy::errors::CustomError;
use swiv_privacy::oracle::normalize_price_and_conf;
use swiv_privacy::state::{
    AssetConfig,
    BetStatus,
    FixedMarket,
    GlobalConfig,
    LiquidityVault,
    MarketMode,
    MarketType,
    UserBet,
    WinCriterion,
};

fn config() -> GlobalConfig {
    GlobalConfig {
        admin: 1,
        treasury_wallet: 2,
        protocol_fee_bps: 250,
        house_fee_bps: 100,
        parimutuel_fee_bps: 300,
        paused: false,
        allowed_assets: vec![40, 41],
        batch_settle_wait_secs: 86_400,
    }
}

fn asset() -> AssetConfig {
    AssetConfig {
        symbol: 11,
        pyth_feed: 90,
        volatility_factor: 10_000,
        mercy_buffer_bps: 500,
        use_pyth_volatility: false,
    }
}

fn vault(assets: u64, exposure: u64) -> LiquidityVault {
    LiquidityVault {
        token_mint: 40,
        asset_symbol: 11,
        total_assets: assets,
        total_shares: assets,
        total_exposure: exposure,
        accumulated_fees: 0,
    }
}

fn bet(status: BetStatus, market: u64) -> UserBet {
    UserBet {
        owner: 7,
        market_identifier: market,
        market_type: MarketType::Infinite,
        deposit: 1000,
        end_timestamp: 5000,
        payout_multiplier: 10_000,
        creation_ts: 100,
        update_count: 0,
        calculated_weight: 0,
        is_weight_added: false,
        entry_price: 100,
        volatility_factor_at_entry: 10_000,
        referrer: None,
        commitment: [1u8; 32],
        is_revealed: true,
        prediction_low: 100,
        prediction_high: 200,
        prediction_target: 150,
        status,
    }
}

#[test]
fn batch_settle_skips_settled_entries_and_settles_the_rest() {
    let c = config();
    let a = asset();
    let mut v = vault(3000, 1000);
    let mut bets = vec![bet(BetStatus::Settled, 11), bet(BetStatus::Active, 11)];
    let keys = vec![0u64, 0u64];
    let outcomes = batch_settle(&c, &mut v, &a, 1, &mut bets, &keys, 150, 100_000).unwrap();
    assert!(outcomes[0].is_none());
    let o = outcomes[1].unwrap();
    assert_eq!(o.user_payout, 2000);
    assert!(o.event.forced_by_admin);
    assert_eq!(bets[1].status, BetStatus::Settled);
    assert_eq!(v.total_exposure, 0);
    assert_eq!(v.total_assets, 1000);
}

#[test]
fn rerunning_batch_settle_changes_nothing() {
    let c = config();
    let a = asset();
    let mut v = vault(3000, 1000);
    let mut bets = vec![bet(BetStatus::Settled, 11), bet(BetStatus::Active, 11)];
    let keys = vec![0u64, 0u64];
    batch_settle(&c, &mut v, &a, 1, &mut bets, &keys, 150, 100_000).unwrap();
    let vault_after = v;
    let bets_after = bets.clone();
    let outcomes = batch_settle(&c, &mut v, &a, 1, &mut bets, &keys, 150, 100_000).unwrap();
    assert!(outcomes.iter().all(|o| o.is_none()));
    assert_eq!(v.total_assets, vault_after.total_assets);
    assert_eq!(v.total_exposure, vault_after.total_exposure);
    for (fresh, previous) in bets.iter().zip(bets_after.iter()) {
        assert_eq!(fresh.status, previous.status);
        assert_eq!(fresh.deposit, previous.deposit);
    }
}

#[test]
fn batch_settle_skips_entries_of_other_markets_silently() {
    let c = config();
    let a = asset();
    let mut v = vault(3000, 1000);
    // The second entry belongs to another market: the defensive mismatch
    // check passes it over untouched while the first entry settles.
    let mut bets = vec![bet(BetStatus::Active, 11), bet(BetStatus::Active, 12)];
    let keys = vec![0u64, 0u64];
    let outcomes = batch_settle(&c, &mut v, &a, 1, &mut bets, &keys, 150, 100_000).unwrap();
    assert!(outcomes[0].is_some());
    assert!(outcomes[1].is_none());
    assert_eq!(bets[0].status, BetStatus::Settled);
    assert_eq!(bets[1].status, BetStatus::Active);
    assert_eq!(bets[1].market_identifier, 12);
    assert_eq!(v.total_exposure, 0);
    assert_eq!(v.total_assets, 1000);
}

#[test]
fn batch_settle_aborts_whole_batch_on_a_calculated_entry() {
    let c = config();
    let a = asset();
    let mut v = vault(3000, 1000);
    // A Calculated bet of this market is neither skippable nor settleable:
    // hard error, nothing settles, not even the valid first entry.
    let mut bets = vec![bet(BetStatus::Active, 11), bet(BetStatus::Calculated, 11)];
    let keys = vec![0u64, 0u64];
    let r = batch_settle(&c, &mut v, &a, 1, &mut bets, &keys, 150, 100_000);
    assert_eq!(r, Err(CustomError::AlreadySettled));
    assert_eq!(bets[0].status, BetStatus::Active);
    assert_eq!(v.total_exposure, 1000);
    assert_eq!(v.total_assets, 3000);
}

#[test]
fn batch_settle_enforces_admin_and_the_per_bet_timeout() {
    let c = config();
    let a = asset();
    let mut v = vault(3000, 1000);
    let mut bets = vec![bet(BetStatus::Active, 11)];
    let keys = vec![0u64];
    assert_eq!(
        batch_settle(&c, &mut v, &a, 9, &mut bets, &keys, 150, 100_000),
        Err(CustomError::Unauthorized)
    );
    // end 5000 + wait 86400: 91400 is not yet past the deadline.
    assert_eq!(
        batch_settle(&c, &mut v, &a, 1, &mut bets, &keys, 150, 91_400),
        Err(CustomError::SettlementTooEarly)
    );
}

fn pari_market() -> FixedMarket {
    FixedMarket {
        admin: 1,
        name: 21,
        token_mint: 40,
        start_time: 0,
        end_time: 1000,
        vault_balance: 20_000,
        mode: MarketMode::Parimutuel,
        criterion: WinCriterion::TargetOnly,
        max_accuracy_buffer: 50,
        conviction_bonus_bps: 1000,
        resolution_target: 150,
        is_resolved: true,
        resolution_ts: 1500,
        total_weight: 0,
        weight_finalized: false,
        locked_for_payouts: 0,
    }
}

#[test]
fn batch_calculate_scores_eligible_bets_with_the_penalty() {
    let mut m = pari_market();
    let mut eligible = bet(BetStatus::Active, 21);
    eligible.market_type = MarketType::Fixed;
    eligible.creation_ts = 50;
    let mut wrong_market = bet(BetStatus::Active, 99);
    wrong_market.market_type = MarketType::Fixed;
    let mut hidden = bet(BetStatus::Active, 21);
    hidden.market_type = MarketType::Fixed;
    hidden.is_revealed = false;
    let mut bets = vec![eligible, wrong_market, hidden];
    batch_calculate_outcome(&mut m, &mut bets, 90_000).unwrap();
    // The ordinary weight would be 2000; the forced path docks 5%.
    assert_eq!(bets[0].calculated_weight, 1900);
    assert_eq!(bets[0].status, BetStatus::Calculated);
    assert!(bets[0].is_weight_added);
    assert_eq!(m.total_weight, 1900);
    // The mismatched and unrevealed entries are skipped silently.
    assert_eq!(bets[1].status, BetStatus::Active);
    assert_eq!(bets[2].status, BetStatus::Active);
    assert_eq!(bets[1].calculated_weight, 0);
}

#[test]
fn batch_calculate_requires_resolution_and_the_waiting_period() {
    let mut m = pari_market();
    m.is_resolved = false;
    let mut bets: Vec<UserBet> = vec![];
    assert_eq!(
        batch_calculate_outcome(&mut m, &mut bets, 90_000),
        Err(CustomError::SettlementTooEarly)
    );
    let mut m = pari_market();
    assert_eq!(
        batch_calculate_outcome(&mut m, &mut bets, 80_000),
        Err(CustomError::SettlementTooEarly)
    );
    let mut m = pari_market();
    m.weight_finalized = true;
    assert_eq!(
        batch_calculate_outcome(&mut m, &mut bets, 90_000),
        Err(CustomError::AlreadySettled)
    );
}

#[test]
fn protocol_initialization_and_admin_updates() {
    let c = initialize_protocol(1, 2, 100, 300, vec![40, 41]);
    assert_eq!(c.admin, 1);
    assert_eq!(c.treasury_wallet, 2);
    assert_eq!(c.house_fee_bps, 100);
    assert_eq!(c.parimutuel_fee_bps, 300);
    assert!(!c.paused);

    let mut c = c;
    assert_eq!(
        update_config(&mut c, 9, Some(5), None, None, None, None),
        Err(CustomError::Unauthorized)
    );
    update_config(&mut c, 1, Some(5), Some(10), Some(20), Some(30), Some(vec![42])).unwrap();
    assert_eq!(c.treasury_wallet, 5);
    assert_eq!(c.protocol_fee_bps, 10);
    assert_eq!(c.house_fee_bps, 20);
    assert_eq!(c.parimutuel_fee_bps, 30);
    assert_eq!(c.allowed_assets, vec![42]);
    update_config(&mut c, 1, None, None, None, None, None).unwrap();
    assert_eq!(c.treasury_wallet, 5);

    set_pause(&mut c, 1, true).unwrap();
    assert!(c.paused);
    assert_eq!(set_pause(&mut c, 9, false), Err(CustomError::Unauthorized));

    transfer_admin(&mut c, 1, 9).unwrap();
    assert_eq!(c.admin, 9);
    assert_eq!(transfer_admin(&mut c, 1, 1), Err(CustomError::Unauthorized));
}

#[test]
fn asset_configuration_defaults_the_mercy_buffer() {
    let c = initialize_protocol(1, 2, 100, 300, vec![40]);
    let fresh = config_asset(&c, None, 1, 11, 90, 10_000, false).unwrap();
    assert_eq!(fresh.mercy_buffer_bps, 500);
    assert_eq!(fresh.volatility_factor, 10_000);
    let kept = config_asset(&c, Some(AssetConfig { mercy_buffer_bps: 900, ..fresh }), 1, 11, 91, 12_000, true)
        .unwrap();
    assert_eq!(kept.mercy_buffer_bps, 900);
    assert_eq!(kept.pyth_feed, 91);
    assert!(kept.use_pyth_volatility);
    assert_eq!(
        config_asset(&c, None, 9, 11, 90, 10_000, false),
        Err(CustomError::Unauthorized)
    );
}

#[test]
fn oracle_normalization_scales_to_six_decimals() {
    let up = normalize_price_and_conf(12_345, -2, 67).unwrap();
    assert_eq!(up.price, 12_345 * 100_000_000);
    assert_eq!(up.conf, 67 * 100_000_000);
    let down = normalize_price_and_conf(12_345, 8, 100).unwrap();
    assert_eq!(down.price, 123);
    assert_eq!(down.conf, 1);
    let same = normalize_price_and_conf(42, 6, 9).unwrap();
    assert_eq!(same.price, 42);
    assert_eq!(same.conf, 9);
}

#[test]
fn oracle_rejects_non_positive_prices_and_overflow() {
    assert_eq!(
        normalize_price_and_conf(0, -2, 0),
        Err(CustomError::InvalidOraclePrice)
    );
    assert_eq!(
        normalize_price_and_conf(-5, -2, 0),
        Err(CustomError::InvalidOraclePrice)
    );
    assert_eq!(
        normalize_price_and_conf(1, -30, 0),
        Err(CustomError::MathOverflow)
    );
    assert_eq!(
        normalize_price_and_conf(i64::MAX, -6, 0),
        Err(CustomError::MathOverflow)
    );
}
