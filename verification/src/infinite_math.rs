use vstd::prelude::*;
use vstd::arithmetic::mul::{lemma_mul_upper_bound, lemma_mul_nonnegative};

use crate::errors::CustomError;

verus! {

/// Scale of accuracy scores and parimutuel weights.
pub const PRECISION: u128 = 1_000_000;

/// Scale of all basis-point quantities.
pub const BPS_SCALE: u128 = 10_000;

/// Hard ceiling on any payout multiplier, in basis points (50x).
pub const MAX_MULTIPLIER_CAP_BPS: u64 = 500_000;

/// Hard floor on any payout multiplier, in basis points (0.1x).
pub const MIN_MULTIPLIER_FLOOR_BPS: u64 = 1_000;

/// The product of two u64 values always fits in a u128.
pub proof fn lemma_u64_mul_fits(x: u64, y: u64)
    ensures
        0 <= (x as int) * (y as int) <= (u64::MAX as int) * (u64::MAX as int),
{
    lemma_mul_nonnegative(x as int, y as int);
    lemma_mul_upper_bound(x as int, u64::MAX as int, y as int, u64::MAX as int);
}

/// Shares minted for a deposit: pro-rata against outstanding shares, or
/// one share per unit on the first deposit into an empty vault.
pub open spec fn spec_shares_to_mint(deposit: int, total_assets: int, total_shares: int) -> int {
    if total_shares == 0 || total_assets == 0 {
        deposit
    } else {
        deposit * total_shares / total_assets
    }
}

/// Assets returned for burning shares: pro-rata against total assets.
pub open spec fn spec_assets_to_withdraw(shares_to_burn: int, total_assets: int, total_shares: int) -> int {
    if total_shares == 0 {
        0
    } else {
        shares_to_burn * total_assets / total_shares
    }
}

/// How many LP shares to mint when depositing into the vault.
/// Fails closed when the pro-rata amount does not fit in a u64.
pub fn calculate_shares_to_mint(deposit_amount: u64, total_assets: u64, total_shares: u64) -> (r: Result<
    u64,
    CustomError,
>)
    ensures
        ({
            let v = spec_shares_to_mint(
                deposit_amount as int,
                total_assets as int,
                total_shares as int,
            );
            &&& v <= u64::MAX ==> r == Ok::<u64, CustomError>(v as u64)
            &&& v > u64::MAX ==> r == Err::<u64, CustomError>(CustomError::MathOverflow)
        }),
{
    if total_shares == 0 || total_assets == 0 {
        return Ok(deposit_amount);
    }
    proof {
        lemma_u64_mul_fits(deposit_amount, total_shares);
    }
    let prod: u128 = (deposit_amount as u128) * (total_shares as u128);
    let q: u128 = prod / (total_assets as u128);
    if q > u64::MAX as u128 {
        return Err(CustomError::MathOverflow);
    }
    Ok(q as u64)
}

/// How many assets to pay out when burning LP shares.
/// Fails closed when the pro-rata amount does not fit in a u64.
pub fn calculate_assets_to_withdraw(shares_to_burn: u64, total_assets: u64, total_shares: u64) -> (r: Result<
    u64,
    CustomError,
>)
    ensures
        ({
            let v = spec_assets_to_withdraw(
                shares_to_burn as int,
                total_assets as int,
                total_shares as int,
            );
            &&& v <= u64::MAX ==> r == Ok::<u64, CustomError>(v as u64)
            &&& v > u64::MAX ==> r == Err::<u64, CustomError>(CustomError::MathOverflow)
        }),
{
    if total_shares == 0 {
        return Ok(0);
    }
    proof {
        lemma_u64_mul_fits(shares_to_burn, total_assets);
    }
    let prod: u128 = (shares_to_burn as u128) * (total_assets as u128);
    let q: u128 = prod / (total_shares as u128);
    if q > u64::MAX as u128 {
        return Err(CustomError::MathOverflow);
    }
    Ok(q as u64)
}

/// Time-decay factor in basis points over the market window:
/// 10000 during the first tenth of the window, 0 from the ninth tenth on,
/// and a linear descent in between.
pub open spec fn spec_time_decay_factor(start: int, end: int, now: int) -> int
    recommends
        start < end,
{
    if now < start {
        10_000
    } else {
        let total = end - start;
        let elapsed = now - start;
        let golden = total / 10;
        let lock = total * 9 / 10;
        if elapsed >= lock {
            0
        } else if elapsed <= golden {
            10_000
        } else {
            let lost = (elapsed - golden) * 10_000 / (lock - golden);
            if lost <= 10_000 {
                10_000 - lost
            } else {
                0
            }
        }
    }
}

/// The i64 differences and products the decay computation needs do not fit.
pub open spec fn spec_time_decay_overflows(start: int, end: int, now: int) -> bool {
    now >= start && (end - start > i64::MAX || now - start > i64::MAX || (end - start) * 9
        > i64::MAX)
}

/// The time-decay factor for a bet placed or updated at `current_time`.
pub fn calculate_time_decay_factor(start_time: i64, end_time: i64, current_time: i64) -> (r: Result<
    u64,
    CustomError,
>)
    requires
        start_time < end_time,
    ensures
        spec_time_decay_overflows(start_time as int, end_time as int, current_time as int) ==> r
            == Err::<u64, CustomError>(CustomError::MathOverflow),
        !spec_time_decay_overflows(start_time as int, end_time as int, current_time as int) ==> r
            == Ok::<u64, CustomError>(
            spec_time_decay_factor(start_time as int, end_time as int, current_time as int) as u64,
        ),
        r is Ok ==> r->Ok_0 <= 10_000,
{
    if current_time < start_time {
        return Ok(10_000);
    }
    let total_i: i64 = match end_time.checked_sub(start_time) {
        Some(v) => v,
        None => {
            return Err(CustomError::MathOverflow);
        },
    };
    let elapsed_i: i64 = match current_time.checked_sub(start_time) {
        Some(v) => v,
        None => {
            return Err(CustomError::MathOverflow);
        },
    };
    let lock_prod: i64 = match total_i.checked_mul(9) {
        Some(v) => v,
        None => {
            return Err(CustomError::MathOverflow);
        },
    };
    let total: u64 = total_i as u64;
    let elapsed: u64 = elapsed_i as u64;
    let golden: u64 = total / 10;
    let lock: u64 = (lock_prod as u64) / 10;
    if elapsed >= lock {
        return Ok(0);
    }
    if elapsed <= golden {
        return Ok(10_000);
    }
    let decay_duration: u64 = lock - golden;
    let time_into_decay: u64 = elapsed - golden;
    let lost_wide: u128 = (time_into_decay as u128) * 10_000 / (decay_duration as u128);
    proof {
        assert((time_into_decay as int) * 10_000 <= (decay_duration as int) * 10_000) by (nonlinear_arith)
            requires
                time_into_decay <= decay_duration,
        ;
        assert((decay_duration as int) * 10_000 / (decay_duration as int) == 10_000) by (nonlinear_arith)
            requires
                decay_duration >= 1,
        ;
        vstd::arithmetic::div_mod::lemma_div_is_ordered(
            (time_into_decay as int) * 10_000,
            (decay_duration as int) * 10_000,
            decay_duration as int,
        );
    }
    let lost: u64 = lost_wide as u64;
    Ok(10_000 - lost)
}

} // verus!

use vstd::arithmetic::div_mod::{lemma_div_is_ordered, lemma_div_pos_is_pos};
use vstd::arithmetic::mul::lemma_mul_inequality;

verus! {

/// What the settlement engine decides for one bet.
#[derive(Clone, Copy, Debug, PartialEq, Eq, Structural)]
pub struct SettlementResult {
    /// Total amount owed to the bettor (winnings, refund, or mercy refund).
    pub payout: u64,
    /// Whether the actual price landed inside the predicted range.
    pub is_win: bool,
    /// Portion of the losing residue owed to the referrer, if any.
    pub referrer_fee: u64,
    /// Amount the vault keeps from a losing bet.
    pub vault_profit: u64,
    /// The effective peak multiplier applied to a winning bet.
    pub peak_multiplier_used: u64,
}

/// Maximum profit the vault could owe on a bet: deposit times the declared
/// multiplier, in basis points, rounded down.
pub open spec fn spec_max_profit(deposit: int, multiplier_bps: int) -> int {
    deposit * multiplier_bps / 10_000
}

/// Multiplier implied by the declared range width against the volatility
/// snapshot taken at entry, clamped to the protocol's floor and cap.
pub open spec fn spec_implied_multiplier(low: int, high: int, entry: int, vol: int) -> int
    recommends
        entry > 0,
{
    if high <= low {
        1_000
    } else {
        let range_bps = (high - low) * 10_000 / entry;
        let safe = if range_bps == 0 {
            1
        } else {
            range_bps
        };
        let ratio = vol * 10_000 / safe;
        if ratio > 500_000 {
            500_000
        } else if ratio < 1_000 {
            1_000
        } else {
            ratio
        }
    }
}

/// A bet whose revealed prediction is inconsistent is void: the target lies
/// outside the range, or the range is empty.
pub open spec fn spec_void_bet(low: int, high: int, target: int) -> bool {
    target < low || target > high || high <= low
}

/// The actual price landed inside the predicted range.
pub open spec fn spec_in_range(low: int, high: int, actual: int) -> bool {
    low <= actual && actual <= high
}

/// Precision fraction in basis points for a winning bet: 10000 at the
/// target, descending linearly to 0 at the range edge on the actual side.
pub open spec fn spec_precision_bps(low: int, high: int, target: int, actual: int) -> int {
    let maxd = if actual > target {
        high - target
    } else {
        target - low
    };
    let actd = if actual > target {
        actual - target
    } else {
        target - actual
    };
    if maxd == 0 {
        10_000
    } else {
        let num = if maxd >= actd {
            maxd - actd
        } else {
            0
        };
        num * 10_000 / maxd
    }
}

/// The lower of the declared multiplier and the implied multiplier.
pub open spec fn spec_effective_peak(declared: int, low: int, high: int, entry: int, vol: int) -> int {
    let implied = spec_implied_multiplier(low, high, entry, vol);
    if declared <= implied {
        declared
    } else {
        implied
    }
}

/// Profit owed on a winning bet: the effective peak multiplier scaled down
/// by the precision fraction, applied to the deposit.
pub open spec fn spec_win_profit(
    deposit: int,
    declared: int,
    low: int,
    high: int,
    target: int,
    actual: int,
    entry: int,
    vol: int,
) -> int {
    let eff = spec_effective_peak(declared, low, high, entry, vol);
    let finalm = eff * spec_precision_bps(low, high, target, actual) / 10_000;
    deposit * finalm / 10_000
}

/// Distance from the actual price to the nearer edge of the predicted range.
pub open spec fn spec_loss_diff(low: int, high: int, actual: int) -> int {
    let dl = if actual > low {
        actual - low
    } else {
        low - actual
    };
    let dh = if actual > high {
        actual - high
    } else {
        high - actual
    };
    if dl <= dh {
        dl
    } else {
        dh
    }
}

/// Widest miss still eligible for a mercy refund, in price units.
pub open spec fn spec_limit_distance(actual: int, mercy_bps: int) -> int {
    actual * mercy_bps / 10_000
}

/// Mercy refund for a losing bet: the mercy pot scaled by how close the
/// miss came to the eligibility limit.
pub open spec fn spec_mercy_refund(deposit: int, diff: int, limit: int) -> int {
    let pot = deposit - deposit / 2;
    if diff < limit && limit > 0 {
        pot * (limit - diff) / limit
    } else {
        0
    }
}

/// The settlement computation fails closed on these inputs: a winning payout
/// that does not fit in a u64, a zero entry price that makes the implied
/// multiplier undefined, or a mercy limit that does not fit in a u64.
pub open spec fn spec_settlement_overflows(
    deposit: int,
    declared: int,
    low: int,
    high: int,
    target: int,
    actual: int,
    entry: int,
    vol: int,
    mercy: int,
) -> bool {
    if spec_void_bet(low, high, target) {
        false
    } else if spec_in_range(low, high, actual) {
        entry == 0 || deposit + spec_win_profit(deposit, declared, low, high, target, actual, entry, vol)
            > u64::MAX
    } else {
        spec_limit_distance(actual, mercy) > u64::MAX
    }
}

/// Used during bet placement to reserve vault exposure for what the bet
/// could win at its declared multiplier.
pub fn calculate_max_potential_profit(deposit: u64, declared_multiplier_bps: u64) -> (r: Result<
    u64,
    CustomError,
>)
    ensures
        ({
            let v = spec_max_profit(deposit as int, declared_multiplier_bps as int);
            &&& v <= u64::MAX ==> r == Ok::<u64, CustomError>(v as u64)
            &&& v > u64::MAX ==> r == Err::<u64, CustomError>(CustomError::MathOverflow)
        }),
{
    proof {
        lemma_u64_mul_fits(deposit, declared_multiplier_bps);
    }
    let prod: u128 = (deposit as u128) * (declared_multiplier_bps as u128);
    let q: u128 = prod / 10_000;
    if q > u64::MAX as u128 {
        return Err(CustomError::MathOverflow);
    }
    Ok(q as u64)
}

/// What the multiplier should be given the declared range against the
/// volatility snapshot from placement; the anti-cheat ceiling at settlement.
pub fn calculate_implied_multiplier(
    prediction_low: u64,
    prediction_high: u64,
    entry_price: u64,
    asset_volatility_bps: u64,
) -> (r: Result<u64, CustomError>)
    ensures
        prediction_high <= prediction_low ==> r == Ok::<u64, CustomError>(1_000u64),
        prediction_high > prediction_low && entry_price == 0 ==> r == Err::<u64, CustomError>(
            CustomError::MathOverflow,
        ),
        prediction_high > prediction_low && entry_price > 0 ==> r == Ok::<u64, CustomError>(
            spec_implied_multiplier(
                prediction_low as int,
                prediction_high as int,
                entry_price as int,
                asset_volatility_bps as int,
            ) as u64,
        ),
        r is Ok ==> 1_000 <= r->Ok_0 <= 500_000,
{
    if prediction_high <= prediction_low {
        return Ok(MIN_MULTIPLIER_FLOOR_BPS);
    }
    if entry_price == 0 {
        return Err(CustomError::MathOverflow);
    }
    let range_width: u128 = (prediction_high - prediction_low) as u128;
    let user_range_bps: u128 = range_width * 10_000 / (entry_price as u128);
    let safe_range_bps: u128 = if user_range_bps == 0 {
        1
    } else {
        user_range_bps
    };
    let difficulty: u128 = (asset_volatility_bps as u128) * 10_000 / safe_range_bps;
    if difficulty > MAX_MULTIPLIER_CAP_BPS as u128 {
        Ok(MAX_MULTIPLIER_CAP_BPS)
    } else if difficulty < MIN_MULTIPLIER_FLOOR_BPS as u128 {
        Ok(MIN_MULTIPLIER_FLOOR_BPS)
    } else {
        Ok(difficulty as u64)
    }
}

} // verus!

verus! {

/// The full settlement decision as one value, assembled from the case
/// functions above; `calculate_settlement` returns exactly this whenever it
/// returns at all.
pub open spec fn spec_settlement(
    deposit: int,
    declared: int,
    low: int,
    high: int,
    target: int,
    actual: int,
    entry: int,
    vol: int,
    mercy: int,
    referrer_exists: bool,
) -> SettlementResult {
    if spec_void_bet(low, high, target) {
        SettlementResult {
            payout: deposit as u64,
            is_win: false,
            referrer_fee: 0,
            vault_profit: 0,
            peak_multiplier_used: 0,
        }
    } else if spec_in_range(low, high, actual) {
        let profit = spec_win_profit(deposit, declared, low, high, target, actual, entry, vol);
        SettlementResult {
            payout: (deposit + profit) as u64,
            is_win: true,
            referrer_fee: 0,
            vault_profit: 0,
            peak_multiplier_used: spec_effective_peak(declared, low, high, entry, vol) as u64,
        }
    } else {
        let diff = spec_loss_diff(low, high, actual);
        let limit = spec_limit_distance(actual, mercy);
        let refund = spec_mercy_refund(deposit, diff, limit);
        let pot = deposit - deposit / 2;
        let residue = pot - refund;
        let fee = if referrer_exists && residue > 0 {
            residue / 2
        } else {
            0
        };
        SettlementResult {
            payout: refund as u64,
            is_win: false,
            referrer_fee: fee as u64,
            vault_profit: (deposit / 2 + residue - fee) as u64,
            peak_multiplier_used: 0,
        }
    }
}

/// The core settlement computation for a house-mode bet: decides void /
/// win / loss from the revealed prediction and the actual price, and splits
/// the deposit between bettor, referrer and vault.
///
/// On a loss the whole deposit is accounted for: payout plus referrer fee
/// plus vault profit equals the deposit. On a win the payout never exceeds
/// the deposit plus the profit reserved at placement from the declared
/// multiplier, which is what keeps the vault solvent.
pub fn calculate_settlement(
    deposit: u64,
    declared_multiplier_bps: u64,
    prediction_low: u64,
    prediction_high: u64,
    prediction_target: u64,
    actual_price: u64,
    entry_price: u64,
    volatility_at_entry_bps: u64,
    mercy_limit_bps: u64,
    referrer_exists: bool,
) -> (r: Result<SettlementResult, CustomError>)
    ensures
        r is Err <==> spec_settlement_overflows(
            deposit as int,
            declared_multiplier_bps as int,
            prediction_low as int,
            prediction_high as int,
            prediction_target as int,
            actual_price as int,
            entry_price as int,
            volatility_at_entry_bps as int,
            mercy_limit_bps as int,
        ),
        r is Err ==> r->Err_0 == CustomError::MathOverflow,
        spec_void_bet(prediction_low as int, prediction_high as int, prediction_target as int)
            ==> r == Ok::<SettlementResult, CustomError>(
            SettlementResult {
                payout: deposit,
                is_win: false,
                referrer_fee: 0,
                vault_profit: 0,
                peak_multiplier_used: 0,
            },
        ),
        r is Ok ==> (r->Ok_0.is_win <==> !spec_void_bet(
            prediction_low as int,
            prediction_high as int,
            prediction_target as int,
        ) && spec_in_range(prediction_low as int, prediction_high as int, actual_price as int)),
        r is Ok && r->Ok_0.is_win ==> {
            let profit = spec_win_profit(
                deposit as int,
                declared_multiplier_bps as int,
                prediction_low as int,
                prediction_high as int,
                prediction_target as int,
                actual_price as int,
                entry_price as int,
                volatility_at_entry_bps as int,
            );
            &&& r->Ok_0.payout == deposit + profit
            &&& r->Ok_0.referrer_fee == 0
            &&& r->Ok_0.vault_profit == 0
            &&& r->Ok_0.peak_multiplier_used == spec_effective_peak(
                declared_multiplier_bps as int,
                prediction_low as int,
                prediction_high as int,
                entry_price as int,
                volatility_at_entry_bps as int,
            )
        },
        r is Ok && !spec_void_bet(
            prediction_low as int,
            prediction_high as int,
            prediction_target as int,
        ) && !spec_in_range(prediction_low as int, prediction_high as int, actual_price as int)
            ==> {
            let diff = spec_loss_diff(
                prediction_low as int,
                prediction_high as int,
                actual_price as int,
            );
            let limit = spec_limit_distance(actual_price as int, mercy_limit_bps as int);
            let refund = spec_mercy_refund(deposit as int, diff, limit);
            let pot = deposit - deposit / 2;
            let residue = pot - refund;
            let fee = if referrer_exists && residue > 0 {
                residue / 2
            } else {
                0
            };
            &&& r->Ok_0.payout == refund
            &&& !r->Ok_0.is_win
            &&& r->Ok_0.referrer_fee == fee
            &&& r->Ok_0.vault_profit == deposit / 2 + residue - fee
            &&& r->Ok_0.peak_multiplier_used == 0
        },
        r is Ok && !r->Ok_0.is_win ==> r->Ok_0.payout + r->Ok_0.referrer_fee
            + r->Ok_0.vault_profit == deposit,
        r is Ok ==> r->Ok_0 == spec_settlement(
            deposit as int,
            declared_multiplier_bps as int,
            prediction_low as int,
            prediction_high as int,
            prediction_target as int,
            actual_price as int,
            entry_price as int,
            volatility_at_entry_bps as int,
            mercy_limit_bps as int,
            referrer_exists,
        ),
        r is Ok ==> r->Ok_0.payout + r->Ok_0.referrer_fee <= deposit + spec_max_profit(
            deposit as int,
            declared_multiplier_bps as int,
        ),
{
    // Fairness check: an inconsistent prediction voids the bet and refunds
    // the whole deposit.
    if prediction_target < prediction_low || prediction_target > prediction_high
        || prediction_high <= prediction_low {
        return Ok(
            SettlementResult {
                payout: deposit,
                is_win: false,
                referrer_fee: 0,
                vault_profit: 0,
                peak_multiplier_used: 0,
            },
        );
    }
    proof {
        lemma_div_pos_is_pos((deposit as int) * (declared_multiplier_bps as int), 10_000);
        lemma_u64_mul_fits(deposit, declared_multiplier_bps);
    }
    let is_in_range = actual_price >= prediction_low && actual_price <= prediction_high;
    if is_in_range {
        // Winner: the implied multiplier from entry data caps the declared one.
        let calculated_peak_bps = match calculate_implied_multiplier(
            prediction_low,
            prediction_high,
            entry_price,
            volatility_at_entry_bps,
        ) {
            Ok(v) => v,
            Err(e) => {
                return Err(e);
            },
        };
        let effective_peak_bps = if declared_multiplier_bps <= calculated_peak_bps {
            declared_multiplier_bps
        } else {
            calculated_peak_bps
        };
        // Slope precision: full at the target, zero at the range edge.
        let max_distance: u64 = if actual_price > prediction_target {
            prediction_high - prediction_target
        } else {
            prediction_target - prediction_low
        };
        let actual_distance: u64 = if actual_price > prediction_target {
            actual_price - prediction_target
        } else {
            prediction_target - actual_price
        };
        let precision_fraction_bps: u64 = if max_distance == 0 {
            10_000
        } else {
            let num: u64 = if max_distance >= actual_distance {
                max_distance - actual_distance
            } else {
                0
            };
            proof {
                assert((num as int) * 10_000 <= (max_distance as int) * 10_000) by (nonlinear_arith)
                    requires
                        num <= max_distance,
                ;
                assert((max_distance as int) * 10_000 / (max_distance as int) == 10_000)
                    by (nonlinear_arith)
                    requires
                        max_distance >= 1,
                ;
                lemma_div_is_ordered(
                    (num as int) * 10_000,
                    (max_distance as int) * 10_000,
                    max_distance as int,
                );
            }
            ((num as u128) * 10_000 / (max_distance as u128)) as u64
        };
        // Final multiplier and profit.
        proof {
            assert((effective_peak_bps as int) * (precision_fraction_bps as int)
                <= (effective_peak_bps as int) * 10_000) by (nonlinear_arith)
                requires
                    precision_fraction_bps <= 10_000,
            ;
            assert((effective_peak_bps as int) * 10_000 / 10_000 == effective_peak_bps as int);
            lemma_div_is_ordered(
                (effective_peak_bps as int) * (precision_fraction_bps as int),
                (effective_peak_bps as int) * 10_000,
                10_000,
            );
            lemma_u64_mul_fits(effective_peak_bps, precision_fraction_bps);
        }
        let final_multiplier_bps: u64 = ((effective_peak_bps as u128) * (
        precision_fraction_bps as u128) / 10_000) as u64;
        proof {
            lemma_u64_mul_fits(deposit, final_multiplier_bps);
            vstd::arithmetic::mul::lemma_mul_nonnegative(
                deposit as int,
                final_multiplier_bps as int,
            );
            lemma_mul_inequality(
                final_multiplier_bps as int,
                declared_multiplier_bps as int,
                deposit as int,
            );
            assert((deposit as int) * (final_multiplier_bps as int) <= (deposit as int) * (
            declared_multiplier_bps as int)) by (nonlinear_arith)
                requires
                    final_multiplier_bps <= declared_multiplier_bps,
                    deposit >= 0,
            ;
            lemma_div_is_ordered(
                (deposit as int) * (final_multiplier_bps as int),
                (deposit as int) * (declared_multiplier_bps as int),
                10_000,
            );
        }
        let profit_wide: u128 = (deposit as u128) * (final_multiplier_bps as u128) / 10_000;
        if profit_wide > u64::MAX as u128 {
            return Err(CustomError::MathOverflow);
        }
        let profit: u64 = profit_wide as u64;
        let total_payout: u64 = match deposit.checked_add(profit) {
            Some(v) => v,
            None => {
                return Err(CustomError::MathOverflow);
            },
        };
        return Ok(
            SettlementResult {
                payout: total_payout,
                is_win: true,
                referrer_fee: 0,
                vault_profit: 0,
                peak_multiplier_used: effective_peak_bps,
            },
        );
    }
    // Loser: a flat half is lost; the rest may come back as a mercy refund.
    let diff_low: u64 = if actual_price > prediction_low {
        actual_price - prediction_low
    } else {
        prediction_low - actual_price
    };
    let diff_high: u64 = if actual_price > prediction_high {
        actual_price - prediction_high
    } else {
        prediction_high - actual_price
    };
    let diff: u64 = if diff_low <= diff_high {
        diff_low
    } else {
        diff_high
    };
    proof {
        lemma_u64_mul_fits(actual_price, mercy_limit_bps);
    }
    let limit_wide: u128 = (actual_price as u128) * (mercy_limit_bps as u128) / 10_000;
    if limit_wide > u64::MAX as u128 {
        return Err(CustomError::MathOverflow);
    }
    let limit_distance: u64 = limit_wide as u64;
    let hard_loss: u64 = deposit / 2;
    let mercy_pot: u64 = deposit - hard_loss;
    let user_refund: u64 = if diff < limit_distance && limit_distance > 0 {
        proof {
            assert((mercy_pot as int) * ((limit_distance - diff) as int)
                <= (mercy_pot as int) * (limit_distance as int)) by (nonlinear_arith)
                requires
                    diff >= 0,
                    mercy_pot >= 0,
                    limit_distance - diff <= limit_distance,
            ;
            assert((mercy_pot as int) * (limit_distance as int) / (limit_distance as int)
                == mercy_pot as int) by (nonlinear_arith)
                requires
                    limit_distance >= 1,
            ;
            lemma_div_is_ordered(
                (mercy_pot as int) * ((limit_distance - diff) as int),
                (mercy_pot as int) * (limit_distance as int),
                limit_distance as int,
            );
            lemma_div_pos_is_pos(
                (mercy_pot as int) * ((limit_distance - diff) as int),
                limit_distance as int,
            );
            vstd::arithmetic::mul::lemma_mul_nonnegative(
                mercy_pot as int,
                (limit_distance - diff) as int,
            );
            lemma_u64_mul_fits(mercy_pot, (limit_distance - diff) as u64);
        }
        ((mercy_pot as u128) * ((limit_distance - diff) as u128) / (limit_distance as u128)) as u64
    } else {
        0
    };
    let residue: u64 = mercy_pot - user_refund;
    let referrer_fee: u64 = if referrer_exists && residue > 0 {
        residue / 2
    } else {
        0
    };
    let vault_keep: u64 = hard_loss + residue - referrer_fee;
    Ok(
        SettlementResult {
            payout: user_refund,
            is_win: false,
            referrer_fee,
            vault_profit: vault_keep,
            peak_multiplier_used: 0,
        },
    )
}

} // verus!

verus! {

/// The time-decay factor always lands in the basis-point range.
pub proof fn lemma_time_decay_bounds(start: int, end: int, now: int)
    requires
        start < end,
    ensures
        0 <= spec_time_decay_factor(start, end, now) <= 10_000,
{
    if now < start {
    } else {
        let total = end - start;
        let elapsed = now - start;
        let golden = total / 10;
        let lock = total * 9 / 10;
        if elapsed >= lock {
        } else if elapsed <= golden {
        } else {
            vstd::arithmetic::mul::lemma_mul_nonnegative(elapsed - golden, 10_000);
            vstd::arithmetic::div_mod::lemma_div_pos_is_pos(
                (elapsed - golden) * 10_000,
                lock - golden,
            );
        }
    }
}

} // verus!
