use swiv_privacy::errors::CustomError;
use swiv_privacy::infinite_market::{add_liquidity, init_vault, place_bet, remove_liquidity};
use swiv_privacy::state::{AssetConfig, BetStatus, GlobalConfig, LiquidityVault, MarketType};

fn config() -> GlobalConfig {
    GlobalConfig {
        admin: 1,
        treasury_wallet: 2,
        protocol_fee_bps: 250,
        house_fee_bps: 100,
        parimutuel_fee_bps: 300,
        paused: false,
        allowed_assets: vec![40, 41],
        batch_settle_wait_secs: 86_400,
    }
}

fn asset() -> AssetConfig {
    AssetConfig {
        symbol: 11,
        pyth_feed: 90,
        volatility_factor: 10_000,
        mercy_buffer_bps: 500,
        use_pyth_volatility: false,
    }
}

fn vault(assets: u64, shares: u64, exposure: u64) -> LiquidityVault {
    LiquidityVault {
        token_mint: 40,
        asset_symbol: 11,
        total_assets: assets,
        total_shares: shares,
        total_exposure: exposure,
        accumulated_fees: 0,
    }
}

#[test]
fn init_vault_requires_a_whitelisted_mint() {
    let c = config();
    let v = init_vault(&c, 40, 11).unwrap();
    assert_eq!(v.total_assets, 0);
    assert_eq!(v.total_shares, 0);
    assert_eq!(v.total_exposure, 0);
    assert_eq!(init_vault(&c, 99, 11), Err(CustomError::InvalidAsset));
}

#[test]
fn add_liquidity_bootstrap_and_pro_rata() {
    let c = config();
    let mut v = vault(0, 0, 0);
    assert_eq!(add_liquidity(&c, &mut v, 1000), Ok(1000));
    assert_eq!(v.total_assets, 1000);
    assert_eq!(v.total_shares, 1000);
    assert_eq!(add_liquidity(&c, &mut v, 500), Ok(500));
    assert_eq!(v.total_assets, 1500);
    assert_eq!(v.total_shares, 1500);
}

#[test]
fn add_liquidity_rejected_while_paused() {
    let mut c = config();
    c.paused = true;
    let mut v = vault(0, 0, 0);
    assert_eq!(add_liquidity(&c, &mut v, 1000), Err(CustomError::Paused));
    assert_eq!(v.total_assets, 0);
}

#[test]
fn remove_liquidity_pays_pro_rata_and_checks_shares() {
    let c = config();
    let mut v = vault(3000, 2000, 0);
    assert_eq!(remove_liquidity(&c, &mut v, 1000), Ok(1500));
    assert_eq!(v.total_assets, 1500);
    assert_eq!(v.total_shares, 1000);
    assert_eq!(
        remove_liquidity(&c, &mut v, 2000),
        Err(CustomError::InsufficientLiquidity)
    );
    assert_eq!(remove_liquidity(&c, &mut v, 0), Err(CustomError::MathOverflow));
}

#[test]
fn deposit_then_withdraw_everything_returns_the_deposit() {
    let c = config();
    let mut v = vault(0, 0, 0);
    let minted = add_liquidity(&c, &mut v, 777).unwrap();
    let back = remove_liquidity(&c, &mut v, minted).unwrap();
    assert_eq!(back, 777);
}

#[test]
fn place_bet_reserves_exposure_and_banks_the_net_stake() {
    let c = config();
    let a = asset();
    let mut v = vault(30_000, 30_000, 0);
    let (bet, fee) = place_bet(
        &c,
        &a,
        &mut v,
        7,
        10_000,
        3600,
        20_000,
        [1u8; 32],
        123,
        Some(8),
        1000,
    )
    .unwrap();
    assert_eq!(fee, 100);
    assert_eq!(bet.deposit, 9_900);
    assert_eq!(bet.owner, 7);
    assert_eq!(bet.market_type, MarketType::Infinite);
    assert_eq!(bet.market_identifier, 11);
    assert_eq!(bet.payout_multiplier, 20_000);
    assert_eq!(bet.end_timestamp, 4600);
    assert_eq!(bet.entry_price, 123);
    assert_eq!(bet.volatility_factor_at_entry, 10_000);
    assert_eq!(bet.referrer, Some(8));
    assert!(!bet.is_revealed);
    assert_eq!(bet.prediction_low, 0);
    assert_eq!(bet.prediction_high, 0);
    assert_eq!(bet.prediction_target, 0);
    assert_eq!(bet.status, BetStatus::Active);
    // Max potential profit of 9900 at 2x is 19800.
    assert_eq!(v.total_exposure, 19_800);
    assert_eq!(v.total_assets, 39_900);
    assert!(v.total_exposure <= v.total_assets);
}

#[test]
fn place_bet_rejects_insolvency_pause_and_self_referral() {
    let c = config();
    let a = asset();
    let mut v = vault(10_000, 10_000, 0);
    // 9900 net at 2x needs 19800 of backing; only 10000 there.
    assert!(matches!(
        place_bet(&c, &a, &mut v, 7, 10_000, 3600, 20_000, [1u8; 32], 123, None, 1000),
        Err(CustomError::SolvencyRisk)
    ));
    assert_eq!(v.total_exposure, 0);
    assert!(matches!(
        place_bet(&c, &a, &mut v, 7, 100, 3600, 0, [1u8; 32], 123, Some(7), 1000),
        Err(CustomError::Unauthorized)
    ));
    let mut paused = config();
    paused.paused = true;
    assert!(matches!(
        place_bet(&paused, &a, &mut v, 7, 100, 3600, 0, [1u8; 32], 123, None, 1000),
        Err(CustomError::Paused)
    ));
}
