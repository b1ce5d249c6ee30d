use vstd::prelude::*;
use vstd::arithmetic::div_mod::{lemma_div_is_ordered, lemma_div_pos_is_pos};
use vstd::arithmetic::mul::{lemma_mul_inequality, lemma_mul_nonnegative};

use crate::errors::CustomError;
use crate::infinite_math::{
    calculate_assets_to_withdraw,
    calculate_max_potential_profit,
    calculate_shares_to_mint,
    lemma_u64_mul_fits,
    spec_assets_to_withdraw,
    spec_max_profit,
    spec_shares_to_mint,
};
use crate::state::{
    vault_backs_bet,
    AssetConfig,
    BetStatus,
    GlobalConfig,
    LiquidityVault,
    MarketType,
    UserBet,
};

verus! {

/// Create the liquidity vault for a whitelisted asset.
pub fn init_vault(config: &GlobalConfig, token_mint: u64, asset_symbol: u64) -> (r: Result<
    LiquidityVault,
    CustomError,
>)
    ensures
        r is Ok <==> (exists|i: int|
            0 <= i < config.allowed_assets@.len() && config.allowed_assets@[i] == token_mint),
        r is Err ==> r->Err_0 == CustomError::InvalidAsset,
        r is Ok ==> r->Ok_0 == (LiquidityVault {
            token_mint,
            asset_symbol,
            total_assets: 0,
            total_shares: 0,
            total_exposure: 0,
            accumulated_fees: 0,
        }),
{
    let mut i: usize = 0;
    let mut whitelisted: bool = false;
    let n: usize = config.allowed_assets.len();
    while i < n
        invariant
            0 <= i <= n,
            n == config.allowed_assets@.len(),
            whitelisted <==> (exists|j: int|
                0 <= j < i && config.allowed_assets@[j] == token_mint),
        decreases n - i,
    {
        if config.allowed_assets[i] == token_mint {
            whitelisted = true;
        }
        i += 1;
    }
    if !whitelisted {
        return Err(CustomError::InvalidAsset);
    }
    Ok(LiquidityVault::new(token_mint, asset_symbol))
}

/// Deposit assets into the vault for freshly minted LP shares.
/// Returns how many shares were minted.
pub fn add_liquidity(config: &GlobalConfig, vault: &mut LiquidityVault, amount_deposit: u64) -> (r: Result<
    u64,
    CustomError,
>)
    ensures
        r is Err ==> *final(vault) == *old(vault),
        config.paused ==> r == Err::<u64, CustomError>(CustomError::Paused),
        r is Ok <==> (!config.paused && ({
            let minted = spec_shares_to_mint(
                amount_deposit as int,
                old(vault).total_assets as int,
                old(vault).total_shares as int,
            );
            minted <= u64::MAX && old(vault).total_assets + amount_deposit <= u64::MAX && old(
                vault,
            ).total_shares + minted <= u64::MAX
        })),
        !config.paused && r is Err ==> r->Err_0 == CustomError::MathOverflow,
        r is Ok ==> ({
            let minted = spec_shares_to_mint(
                amount_deposit as int,
                old(vault).total_assets as int,
                old(vault).total_shares as int,
            );
            &&& r->Ok_0 == minted
            &&& *final(vault) == (LiquidityVault {
                total_assets: (old(vault).total_assets + amount_deposit) as u64,
                total_shares: (old(vault).total_shares + minted) as u64,
                ..*old(vault)
            })
        }),
        old(vault).solvent() ==> final(vault).solvent(),
{
    if config.paused {
        return Err(CustomError::Paused);
    }
    let shares_to_mint: u64 = match calculate_shares_to_mint(
        amount_deposit,
        vault.total_assets,
        vault.total_shares,
    ) {
        Ok(v) => v,
        Err(e) => {
            return Err(e);
        },
    };
    let new_assets: u64 = match vault.total_assets.checked_add(amount_deposit) {
        Some(v) => v,
        None => {
            return Err(CustomError::MathOverflow);
        },
    };
    let new_shares: u64 = match vault.total_shares.checked_add(shares_to_mint) {
        Some(v) => v,
        None => {
            return Err(CustomError::MathOverflow);
        },
    };
    vault.total_assets = new_assets;
    vault.total_shares = new_shares;
    Ok(shares_to_mint)
}

/// Burn LP shares for a pro-rata slice of the vault's assets.
/// Returns how many assets to pay out.
pub fn remove_liquidity(config: &GlobalConfig, vault: &mut LiquidityVault, shares_to_burn: u64) -> (r: Result<
    u64,
    CustomError,
>)
    ensures
        r is Err ==> *final(vault) == *old(vault),
        config.paused ==> r == Err::<u64, CustomError>(CustomError::Paused),
        !config.paused && shares_to_burn == 0 ==> r == Err::<u64, CustomError>(
            CustomError::MathOverflow,
        ),
        !config.paused && shares_to_burn > 0 && shares_to_burn > old(vault).total_shares ==> r
            == Err::<u64, CustomError>(CustomError::InsufficientLiquidity),
        r is Ok <==> (!config.paused && 0 < shares_to_burn <= old(vault).total_shares),
        r is Ok ==> ({
            let out = spec_assets_to_withdraw(
                shares_to_burn as int,
                old(vault).total_assets as int,
                old(vault).total_shares as int,
            );
            &&& r->Ok_0 == out
            &&& r->Ok_0 <= old(vault).total_assets
            &&& *final(vault) == (LiquidityVault {
                total_assets: (old(vault).total_assets - out) as u64,
                total_shares: (old(vault).total_shares - shares_to_burn) as u64,
                ..*old(vault)
            })
        }),
{
    if config.paused {
        return Err(CustomError::Paused);
    }
    if shares_to_burn == 0 {
        return Err(CustomError::MathOverflow);
    }
    if shares_to_burn > vault.total_shares {
        return Err(CustomError::InsufficientLiquidity);
    }
    proof {
        lemma_mul_inequality(
            shares_to_burn as int,
            vault.total_shares as int,
            vault.total_assets as int,
        );
        assert((shares_to_burn as int) * (vault.total_assets as int) <= (
        vault.total_shares as int) * (vault.total_assets as int)) by (nonlinear_arith)
            requires
                shares_to_burn <= vault.total_shares,
                vault.total_assets >= 0,
        ;
        assert((vault.total_shares as int) * (vault.total_assets as int) / (
        vault.total_shares as int) == vault.total_assets as int) by (nonlinear_arith)
            requires
                vault.total_shares >= 1,
        ;
        lemma_div_is_ordered(
            (shares_to_burn as int) * (vault.total_assets as int),
            (vault.total_shares as int) * (vault.total_assets as int),
            vault.total_shares as int,
        );
        lemma_mul_nonnegative(shares_to_burn as int, vault.total_assets as int);
        lemma_div_pos_is_pos(
            (shares_to_burn as int) * (vault.total_assets as int),
            vault.total_shares as int,
        );
    }
    let assets_out: u64 = match calculate_assets_to_withdraw(
        shares_to_burn,
        vault.total_assets,
        vault.total_shares,
    ) {
        Ok(v) => v,
        Err(e) => {
            return Err(e);
        },
    };
    vault.total_assets = vault.total_assets - assets_out;
    vault.total_shares = vault.total_shares - shares_to_burn;
    Ok(assets_out)
}

/// The placement fee on a house-mode stake.
pub open spec fn spec_placement_fee(amount: int, fee_bps: int) -> int {
    amount * fee_bps / 10_000
}

/// The arithmetic that precedes the solvency check fails closed.
pub open spec fn spec_place_bet_pre_overflow(
    amount: int,
    fee_bps: int,
    declared: int,
    exposure: int,
) -> bool {
    let fee = spec_placement_fee(amount, fee_bps);
    ||| fee > u64::MAX
    ||| fee > amount
    ||| spec_max_profit(amount - fee, declared) > u64::MAX
    ||| exposure + spec_max_profit(amount - fee, declared) > u64::MAX
}

/// The arithmetic that follows the solvency check fails closed.
pub open spec fn spec_place_bet_post_overflow(
    amount: int,
    fee_bps: int,
    assets: int,
    now: int,
    duration: int,
) -> bool {
    let net = amount - spec_placement_fee(amount, fee_bps);
    ||| now + duration > i64::MAX
    ||| now + duration < i64::MIN
    ||| assets + net > u64::MAX
}

/// Place a house-mode bet against the liquidity vault: takes the placement
/// fee, reserves the bet's maximum potential profit as exposure (rejecting
/// the bet when that would outrun the vault's assets), banks the net stake,
/// and records the commitment with all prediction fields zeroed.
///
/// `entry_price` is the oracle snapshot the caller fetched for this asset.
/// Returns the new bet and the fee owed to the treasury.
pub fn place_bet(
    config: &GlobalConfig,
    asset_config: &AssetConfig,
    vault: &mut LiquidityVault,
    owner: u64,
    amount: u64,
    duration: i64,
    declared_multiplier_bps: u64,
    commitment: [u8; 32],
    entry_price: u64,
    referrer: Option<u64>,
    now: i64,
) -> (r: Result<(UserBet, u64), CustomError>)
    ensures
        r is Err ==> *final(vault) == *old(vault),
        config.paused ==> r == Err::<(UserBet, u64), CustomError>(CustomError::Paused),
        !config.paused && referrer == Some(owner) ==> r == Err::<(UserBet, u64), CustomError>(
            CustomError::Unauthorized,
        ),
        !config.paused && referrer != Some(owner) && spec_place_bet_pre_overflow(
            amount as int,
            config.house_fee_bps as int,
            declared_multiplier_bps as int,
            old(vault).total_exposure as int,
        ) ==> r == Err::<(UserBet, u64), CustomError>(CustomError::MathOverflow),
        !config.paused && referrer != Some(owner) && !spec_place_bet_pre_overflow(
            amount as int,
            config.house_fee_bps as int,
            declared_multiplier_bps as int,
            old(vault).total_exposure as int,
        ) && old(vault).total_exposure + spec_max_profit(
            amount - spec_placement_fee(amount as int, config.house_fee_bps as int),
            declared_multiplier_bps as int,
        ) > old(vault).total_assets ==> r == Err::<(UserBet, u64), CustomError>(
            CustomError::SolvencyRisk,
        ),
        r is Ok <==> (!config.paused && referrer != Some(owner) && !spec_place_bet_pre_overflow(
            amount as int,
            config.house_fee_bps as int,
            declared_multiplier_bps as int,
            old(vault).total_exposure as int,
        ) && old(vault).total_exposure + spec_max_profit(
            amount - spec_placement_fee(amount as int, config.house_fee_bps as int),
            declared_multiplier_bps as int,
        ) <= old(vault).total_assets && !spec_place_bet_post_overflow(
            amount as int,
            config.house_fee_bps as int,
            old(vault).total_assets as int,
            now as int,
            duration as int,
        )),
        r is Ok ==> ({
            let fee = spec_placement_fee(amount as int, config.house_fee_bps as int);
            let net = amount - fee;
            let profit = spec_max_profit(net, declared_multiplier_bps as int);
            &&& r->Ok_0.1 == fee
            &&& r->Ok_0.0 == (UserBet {
                owner,
                market_identifier: old(vault).asset_symbol,
                market_type: MarketType::Infinite,
                deposit: net as u64,
                end_timestamp: (now + duration) as i64,
                payout_multiplier: declared_multiplier_bps,
                creation_ts: now,
                update_count: 0,
                calculated_weight: 0,
                is_weight_added: false,
                entry_price,
                volatility_factor_at_entry: asset_config.volatility_factor,
                referrer,
                commitment,
                is_revealed: false,
                prediction_low: 0,
                prediction_high: 0,
                prediction_target: 0,
                status: BetStatus::Active,
            })
            &&& *final(vault) == (LiquidityVault {
                total_exposure: (old(vault).total_exposure + profit) as u64,
                total_assets: (old(vault).total_assets + net) as u64,
                ..*old(vault)
            })
        }),
        r is Ok ==> final(vault).solvent() && vault_backs_bet(*final(vault), r->Ok_0.0),
{
    if config.paused {
        return Err(CustomError::Paused);
    }
    match referrer {
        Some(referrer_id) => {
            if referrer_id == owner {
                return Err(CustomError::Unauthorized);
            }
        },
        None => {},
    }
    proof {
        lemma_u64_mul_fits(amount, config.house_fee_bps);
        lemma_mul_nonnegative(amount as int, config.house_fee_bps as int);
        lemma_div_pos_is_pos((amount as int) * (config.house_fee_bps as int), 10_000);
    }
    let fee_wide: u128 = (amount as u128) * (config.house_fee_bps as u128) / 10_000;
    if fee_wide > u64::MAX as u128 {
        return Err(CustomError::MathOverflow);
    }
    let fee_amount: u64 = fee_wide as u64;
    if fee_amount > amount {
        return Err(CustomError::MathOverflow);
    }
    let net_deposit: u64 = amount - fee_amount;
    let potential_profit: u64 = match calculate_max_potential_profit(
        net_deposit,
        declared_multiplier_bps,
    ) {
        Ok(v) => v,
        Err(e) => {
            return Err(e);
        },
    };
    let new_exposure: u64 = match vault.total_exposure.checked_add(potential_profit) {
        Some(v) => v,
        None => {
            return Err(CustomError::MathOverflow);
        },
    };
    if new_exposure > vault.total_assets {
        return Err(CustomError::SolvencyRisk);
    }
    let end_timestamp: i64 = match now.checked_add(duration) {
        Some(v) => v,
        None => {
            return Err(CustomError::MathOverflow);
        },
    };
    let new_assets: u64 = match vault.total_assets.checked_add(net_deposit) {
        Some(v) => v,
        None => {
            return Err(CustomError::MathOverflow);
        },
    };
    vault.total_exposure = new_exposure;
    vault.total_assets = new_assets;
    let bet = UserBet {
        owner,
        market_identifier: vault.asset_symbol,
        market_type: MarketType::Infinite,
        deposit: net_deposit,
        end_timestamp,
        payout_multiplier: declared_multiplier_bps,
        creation_ts: now,
        update_count: 0,
        calculated_weight: 0,
        is_weight_added: false,
        entry_price,
        volatility_factor_at_entry: asset_config.volatility_factor,
        referrer,
        commitment,
        is_revealed: false,
        prediction_low: 0,
        prediction_high: 0,
        prediction_target: 0,
        status: BetStatus::Active,
    };
    Ok((bet, fee_amount))
}

} // verus!
