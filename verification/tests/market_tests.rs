use swiv_privacy::errors::CustomError;
use swiv_privacy::fixed_market::{
    calculate_fixed_outcome,
    claim_fixed_reward,
    create_fixed_market,
    finalize_weights,
    place_bet_fixed,
    resolve_fixed_market,
};
use swiv_privacy::pool::{
    calculate_pool_outcome,
    claim_pool_reward,
    create_pool,
    place_bet,
};
use swiv_privacy::state::{
    AssetConfig,
    BetStatus,
    FixedMarket,
    GlobalConfig,
    MarketMode,
    MarketType,
    UserBet,
    WinCriterion,
};

fn config() -> GlobalConfig {
    GlobalConfig {
        admin: 1,
        treasury_wallet: 2,
        protocol_fee_bps: 250,
        house_fee_bps: 100,
        parimutuel_fee_bps: 300,
        paused: false,
        allowed_assets: vec![40, 41],
        batch_settle_wait_secs: 86_400,
    }
}

fn asset() -> AssetConfig {
    AssetConfig {
        symbol: 11,
        pyth_feed: 90,
        volatility_factor: 10_000,
        mercy_buffer_bps: 500,
        use_pyth_volatility: false,
    }
}

#[test]
fn create_market_validates_admin_window_whitelist_and_mode() {
    let c = config();
    assert_eq!(
        create_fixed_market(&c, 9, 21, 40, 0, 1000, 0, MarketMode::House, WinCriterion::Range, 50, 1000),
        Err(CustomError::Unauthorized)
    );
    assert_eq!(
        create_fixed_market(&c, 1, 21, 40, 1000, 1000, 0, MarketMode::House, WinCriterion::Range, 50, 1000),
        Err(CustomError::DurationTooShort)
    );
    assert_eq!(
        create_fixed_market(&c, 1, 21, 99, 0, 1000, 0, MarketMode::House, WinCriterion::Range, 50, 1000),
        Err(CustomError::AssetNotWhitelisted)
    );
    assert_eq!(
        create_fixed_market(&c, 1, 21, 40, 0, 1000, 0, MarketMode::Parimutuel, WinCriterion::Range, 50, 1000),
        Err(CustomError::InvalidAsset)
    );
    let m = create_fixed_market(
        &c,
        1,
        21,
        40,
        0,
        1000,
        5000,
        MarketMode::House,
        WinCriterion::Range,
        50,
        1000,
    )
    .unwrap();
    assert_eq!(m.vault_balance, 5000);
    assert_eq!(m.locked_for_payouts, 0);
    assert!(!m.is_resolved);
}

#[test]
fn house_placement_decays_the_multiplier_and_locks_liability() {
    let c = config();
    let mut m = create_fixed_market(
        &c,
        1,
        21,
        40,
        0,
        1000,
        50_000,
        MarketMode::House,
        WinCriterion::Range,
        50,
        1000,
    )
    .unwrap();
    // At t=50 the decay factor is still 10000; fee 1% of 10000 leaves 9900.
    let (bet, fee) = place_bet_fixed(&c, &mut m, &asset(), 7, 10_000, 20_000, [1u8; 32], 50)
        .unwrap();
    assert_eq!(fee, 100);
    assert_eq!(bet.deposit, 9_900);
    assert_eq!(bet.payout_multiplier, 20_000);
    assert_eq!(bet.market_type, MarketType::Fixed);
    assert_eq!(bet.end_timestamp, 1000);
    // Liability: deposit 9900 plus potential profit 19800.
    assert_eq!(m.locked_for_payouts, 29_700);
    assert_eq!(m.vault_balance, 59_900);
    assert!(m.locked_for_payouts <= m.vault_balance);
}

#[test]
fn house_placement_rejects_outside_the_window_and_over_backing() {
    let c = config();
    let mut m = create_fixed_market(
        &c,
        1,
        21,
        40,
        100,
        1000,
        0,
        MarketMode::House,
        WinCriterion::Range,
        50,
        1000,
    )
    .unwrap();
    assert!(matches!(
        place_bet_fixed(&c, &mut m, &asset(), 7, 1000, 20_000, [1u8; 32], 50),
        Err(CustomError::DurationTooShort)
    ));
    assert!(matches!(
        place_bet_fixed(&c, &mut m, &asset(), 7, 1000, 20_000, [1u8; 32], 1000),
        Err(CustomError::DurationTooShort)
    ));
    // An empty market cannot back deposit + profit beyond the stake itself.
    assert!(matches!(
        place_bet_fixed(&c, &mut m, &asset(), 7, 1000, 20_000, [1u8; 32], 110),
        Err(CustomError::SolvencyRisk)
    ));
}

#[test]
fn parimutuel_placement_charges_no_house_fee() {
    let c = config();
    let mut m = create_fixed_market(
        &c,
        1,
        21,
        40,
        0,
        1000,
        0,
        MarketMode::Parimutuel,
        WinCriterion::TargetOnly,
        50,
        1000,
    )
    .unwrap();
    let (bet, fee) = place_bet_fixed(&c, &mut m, &asset(), 7, 10_000, 20_000, [1u8; 32], 50)
        .unwrap();
    assert_eq!(fee, 0);
    assert_eq!(bet.deposit, 10_000);
    assert_eq!(bet.payout_multiplier, 0);
    assert_eq!(m.vault_balance, 10_000);
    assert_eq!(m.locked_for_payouts, 0);
}

#[test]
fn resolution_is_admin_only_after_the_window_and_only_once() {
    let c = config();
    let mut m = create_fixed_market(
        &c,
        1,
        21,
        40,
        0,
        1000,
        0,
        MarketMode::House,
        WinCriterion::Range,
        50,
        1000,
    )
    .unwrap();
    assert_eq!(
        resolve_fixed_market(&c, &mut m, 9, 150, 1500),
        Err(CustomError::Unauthorized)
    );
    assert_eq!(
        resolve_fixed_market(&c, &mut m, 1, 150, 500),
        Err(CustomError::DurationTooShort)
    );
    assert_eq!(resolve_fixed_market(&c, &mut m, 1, 150, 1500), Ok(()));
    assert!(m.is_resolved);
    assert_eq!(m.resolution_target, 150);
    assert_eq!(m.resolution_ts, 1500);
    assert_eq!(
        resolve_fixed_market(&c, &mut m, 1, 150, 1600),
        Err(CustomError::AlreadySettled)
    );
}

fn pari_bet(name: u64, deposit: u64, target: u64, creation_ts: i64) -> UserBet {
    UserBet {
        owner: 7,
        market_identifier: name,
        market_type: MarketType::Fixed,
        deposit,
        end_timestamp: 1000,
        payout_multiplier: 0,
        creation_ts,
        update_count: 0,
        calculated_weight: 0,
        is_weight_added: false,
        entry_price: 0,
        volatility_factor_at_entry: 10_000,
        referrer: None,
        commitment: [1u8; 32],
        is_revealed: true,
        prediction_low: 140,
        prediction_high: 160,
        prediction_target: target,
        status: BetStatus::Active,
    }
}

#[test]
fn parimutuel_lifecycle_scores_finalizes_and_pays_shares() {
    let c = config();
    let mut m = create_fixed_market(
        &c,
        1,
        21,
        40,
        0,
        1000,
        0,
        MarketMode::Parimutuel,
        WinCriterion::TargetOnly,
        50,
        1000,
    )
    .unwrap();
    m.vault_balance = 20_000;
    resolve_fixed_market(&c, &mut m, 1, 150, 1500).unwrap();
    // A perfect early bet: accuracy 1e6, time bonus 10000, no conviction.
    let mut winner = pari_bet(21, 1000, 150, 50);
    calculate_fixed_outcome(&mut m, &mut winner).unwrap();
    assert_eq!(winner.calculated_weight, 2000);
    assert_eq!(winner.status, BetStatus::Calculated);
    assert!(winner.is_weight_added);
    // A late bet off by 25: accuracy 5e5, no time bonus.
    let mut loser = pari_bet(21, 1000, 175, 950);
    calculate_fixed_outcome(&mut m, &mut loser).unwrap();
    assert_eq!(loser.calculated_weight, 500);
    assert_eq!(m.total_weight, 2500);
    // Scoring twice is rejected.
    let mut again = winner;
    assert_eq!(
        calculate_fixed_outcome(&mut m, &mut again),
        Err(CustomError::AlreadySettled)
    );
    // Finalize: 3% parimutuel fee on the 20000 pot.
    let fee = finalize_weights(&c, &mut m, 1).unwrap();
    assert_eq!(fee, 600);
    assert_eq!(m.vault_balance, 19_400);
    assert_eq!(m.locked_for_payouts, 19_400);
    assert!(m.weight_finalized);
    // Claims split the pot by weight: 2000/2500 and 500/2500.
    let w = claim_fixed_reward(&mut m, &mut winner, 7).unwrap();
    assert_eq!(w, 15_520);
    let l = claim_fixed_reward(&mut m, &mut loser, 7).unwrap();
    assert_eq!(l, 3_880);
    assert_eq!(m.vault_balance, 0);
    assert_eq!(winner.status, BetStatus::Settled);
    assert_eq!(loser.status, BetStatus::Settled);
}

#[test]
fn unrevealed_bets_cannot_be_scored() {
    let c = config();
    let mut m = create_fixed_market(
        &c,
        1,
        21,
        40,
        0,
        1000,
        0,
        MarketMode::Parimutuel,
        WinCriterion::TargetOnly,
        50,
        1000,
    )
    .unwrap();
    resolve_fixed_market(&c, &mut m, 1, 150, 1500).unwrap();
    let mut hidden = pari_bet(21, 1000, 150, 50);
    hidden.is_revealed = false;
    assert_eq!(
        calculate_fixed_outcome(&mut m, &mut hidden),
        Err(CustomError::BetNotRevealed)
    );
}

#[test]
fn house_claim_scales_profit_by_accuracy() {
    let c = config();
    let mut m = create_fixed_market(
        &c,
        1,
        21,
        40,
        0,
        1000,
        50_000,
        MarketMode::House,
        WinCriterion::Range,
        50,
        1000,
    )
    .unwrap();
    m.locked_for_payouts = 30_000;
    resolve_fixed_market(&c, &mut m, 1, 150, 1500).unwrap();
    let mut bet = pari_bet(21, 1000, 160, 50);
    bet.payout_multiplier = 20_000;
    calculate_fixed_outcome(&mut m, &mut bet).unwrap();
    // House mode records the bare accuracy: |160-150| against buffer 50.
    assert_eq!(bet.calculated_weight, 800_000);
    // Claim: deposit + profit(2000) * 0.8 = 2600.
    let payout = claim_fixed_reward(&mut m, &mut bet, 7).unwrap();
    assert_eq!(payout, 2600);
    assert_eq!(m.vault_balance, 47_400);
    assert_eq!(m.locked_for_payouts, 27_400);
    assert_eq!(bet.status, BetStatus::Settled);
}

#[test]
fn house_claim_on_a_zero_score_releases_the_lock() {
    let c = config();
    let mut m = create_fixed_market(
        &c,
        1,
        21,
        40,
        0,
        1000,
        50_000,
        MarketMode::House,
        WinCriterion::Range,
        50,
        1000,
    )
    .unwrap();
    m.locked_for_payouts = 30_000;
    resolve_fixed_market(&c, &mut m, 1, 150, 1500).unwrap();
    let mut bet = pari_bet(21, 1000, 300, 50);
    bet.payout_multiplier = 20_000;
    calculate_fixed_outcome(&mut m, &mut bet).unwrap();
    assert_eq!(bet.calculated_weight, 0);
    let payout = claim_fixed_reward(&mut m, &mut bet, 7).unwrap();
    assert_eq!(payout, 0);
    // Deposit 1000 plus reserved profit 2000 are released from the lock.
    assert_eq!(m.locked_for_payouts, 27_000);
    assert_eq!(m.vault_balance, 50_000);
}

#[test]
fn pool_lifecycle_mirrors_the_parimutuel_market() {
    let c = config();
    let mut p = create_pool(&c, 1, 31, 0, 1000, 50, 1000).unwrap();
    assert_eq!(
        create_pool(&c, 9, 32, 0, 1000, 50, 1000),
        Err(CustomError::Unauthorized)
    );
    // Stake 10000 pays the 2.5% protocol fee.
    let (mut bet, fee) = place_bet(&c, &mut p, 7, 10_000, [1u8; 32], 50).unwrap();
    assert_eq!(fee, 250);
    assert_eq!(bet.deposit, 9_750);
    assert_eq!(p.vault_balance, 9_750);
    // No instruction resolves a standalone pool; mark it resolved directly.
    p.is_resolved = true;
    p.final_outcome = 150;
    p.resolution_ts = 1500;
    bet.is_revealed = true;
    bet.prediction_low = 140;
    bet.prediction_high = 160;
    bet.prediction_target = 150;
    calculate_pool_outcome(&mut p, &mut bet).unwrap();
    assert_eq!(bet.status, BetStatus::Calculated);
    assert_eq!(p.total_weight, bet.calculated_weight);
    let fee = swiv_privacy::pool::finalize_weights(&c, &mut p, 1).unwrap();
    assert_eq!(fee, 243);
    assert!(p.weight_finalized);
    // The sole calculated bet takes the whole pot.
    let payout = claim_pool_reward(&mut p, &mut bet, 7).unwrap();
    assert_eq!(payout, p.locked_for_payouts);
    assert_eq!(bet.status, BetStatus::Settled);
}

#[test]
fn parimutuel_claims_wait_for_finalization_and_funds() {
    let c = config();
    let mut m = create_fixed_market(
        &c,
        1,
        21,
        40,
        0,
        1000,
        0,
        MarketMode::Parimutuel,
        WinCriterion::TargetOnly,
        50,
        1000,
    )
    .unwrap();
    m.vault_balance = 20_000;
    resolve_fixed_market(&c, &mut m, 1, 150, 1500).unwrap();
    let mut bet = pari_bet(21, 1000, 150, 50);
    calculate_fixed_outcome(&mut m, &mut bet).unwrap();
    // Not finalized yet: the claim must wait.
    assert_eq!(
        claim_fixed_reward(&mut m, &mut bet, 7),
        Err(CustomError::SettlementTooEarly)
    );
    finalize_weights(&c, &mut m, 1).unwrap();
    // A drained balance cannot honor the share.
    m.vault_balance = 10;
    assert_eq!(
        claim_fixed_reward(&mut m, &mut bet, 7),
        Err(CustomError::InsufficientLiquidity)
    );
    // The wrong caller cannot claim at all.
    m.vault_balance = 20_000;
    assert_eq!(claim_fixed_reward(&mut m, &mut bet, 9), Err(CustomError::Unauthorized));
}

#[test]
fn finalize_weights_is_parimutuel_only_and_admin_only() {
    let c = config();
    let mut m = create_fixed_market(
        &c,
        1,
        21,
        40,
        0,
        1000,
        0,
        MarketMode::House,
        WinCriterion::Range,
        50,
        1000,
    )
    .unwrap();
    assert_eq!(finalize_weights(&c, &mut m, 1), Err(CustomError::InvalidAsset));
    let mut p = create_fixed_market(
        &c,
        1,
        22,
        40,
        0,
        1000,
        0,
        MarketMode::Parimutuel,
        WinCriterion::TargetOnly,
        50,
        1000,
    )
    .unwrap();
    assert_eq!(finalize_weights(&c, &mut p, 9), Err(CustomError::Unauthorized));
    assert_eq!(finalize_weights(&c, &mut p, 1), Err(CustomError::SettlementTooEarly));
    resolve_fixed_market(&c, &mut p, 1, 150, 1500).unwrap();
    finalize_weights(&c, &mut p, 1).unwrap();
    assert_eq!(finalize_weights(&c, &mut p, 1), Err(CustomError::AlreadySettled));
}

#[test]
fn pool_placement_respects_the_window_and_the_pause() {
    let mut c = config();
    let mut p = create_pool(&c, 1, 31, 100, 1000, 50, 1000).unwrap();
    assert!(matches!(
        place_bet(&c, &mut p, 7, 1000, [1u8; 32], 50),
        Err(CustomError::DurationTooShort)
    ));
    assert!(matches!(
        place_bet(&c, &mut p, 7, 1000, [1u8; 32], 1000),
        Err(CustomError::DurationTooShort)
    ));
    c.paused = true;
    assert!(matches!(
        place_bet(&c, &mut p, 7, 1000, [1u8; 32], 500),
        Err(CustomError::Paused)
    ));
}
