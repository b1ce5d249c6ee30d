use vstd::prelude::*;
use vstd::arithmetic::mul::{lemma_mul_upper_bound, lemma_mul_nonnegative};
use vstd::arithmetic::div_mod::{lemma_div_is_ordered, lemma_div_pos_is_pos};

use crate::errors::CustomError;
use crate::infinite_math::{
    calculate_time_decay_factor,
    lemma_u64_mul_fits,
    spec_time_decay_factor,
    spec_time_decay_overflows,
};

verus! {

/// Scale of accuracy scores: a perfect prediction scores 1_000_000.
pub const MATH_PRECISION: u128 = 1_000_000;

/// Basis points the conviction bonus grants per revision of a bet.
pub const CONVICTION_BONUS_STEP_BPS: u64 = 250;

/// Cap on the total conviction bonus, in basis points.
pub const CONVICTION_BONUS_CAP_BPS: u64 = 2_500;

/// Accuracy score of a prediction against the resolved outcome: maximal at
/// distance zero, zero at or beyond the buffer, linear in between.
pub open spec fn spec_accuracy_score(prediction: int, result: int, max_buffer: int) -> int {
    let dist = if prediction >= result {
        prediction - result
    } else {
        result - prediction
    };
    if dist >= max_buffer {
        0
    } else {
        (max_buffer - dist) * 1_000_000 / max_buffer
    }
}

/// Conviction bonus in basis points: a fixed credit per revision, capped.
pub open spec fn spec_conviction_bonus(update_count: int) -> int {
    if update_count * 250 <= 2_500 {
        update_count * 250
    } else {
        2_500
    }
}

/// Parimutuel weight: the deposit scaled by accuracy, then boosted by the
/// time and conviction bonuses, all in u128 to survive large pools.
pub open spec fn spec_parimutuel_weight(
    deposit: int,
    accuracy: int,
    time_bonus: int,
    conviction_bonus: int,
) -> int {
    let base = deposit * accuracy / 1_000_000;
    base * (10_000 + time_bonus + conviction_bonus) / 10_000
}

/// Accuracy score for a revealed prediction, scaled to `MATH_PRECISION`.
pub fn calculate_accuracy_score(prediction: u64, result: u64, max_accuracy_buffer: u64) -> (r: u64)
    ensures
        r == spec_accuracy_score(prediction as int, result as int, max_accuracy_buffer as int),
        r <= 1_000_000,
{
    let dist: u64 = if prediction >= result {
        prediction - result
    } else {
        result - prediction
    };
    if dist >= max_accuracy_buffer {
        return 0;
    }
    let remaining: u64 = max_accuracy_buffer - dist;
    proof {
        assert((remaining as int) * 1_000_000 <= (max_accuracy_buffer as int) * 1_000_000)
            by (nonlinear_arith)
            requires
                remaining <= max_accuracy_buffer,
        ;
        assert((max_accuracy_buffer as int) * 1_000_000 / (max_accuracy_buffer as int)
            == 1_000_000) by (nonlinear_arith)
            requires
                max_accuracy_buffer >= 1,
        ;
        lemma_div_is_ordered(
            (remaining as int) * 1_000_000,
            (max_accuracy_buffer as int) * 1_000_000,
            max_accuracy_buffer as int,
        );
        lemma_mul_nonnegative(remaining as int, 1_000_000);
        lemma_div_pos_is_pos((remaining as int) * 1_000_000, max_accuracy_buffer as int);
    }
    ((remaining as u128) * 1_000_000 / (max_accuracy_buffer as u128)) as u64
}

/// Time bonus in basis points for committing early: the same shape as the
/// time-decay factor, rewarding bets created in the first tenth of the
/// window with the full bonus and late bets with none.
pub fn calculate_time_bonus(start_time: i64, end_time: i64, creation_ts: i64) -> (r: Result<
    u64,
    CustomError,
>)
    requires
        start_time < end_time,
    ensures
        spec_time_decay_overflows(start_time as int, end_time as int, creation_ts as int) ==> r
            == Err::<u64, CustomError>(CustomError::MathOverflow),
        !spec_time_decay_overflows(start_time as int, end_time as int, creation_ts as int) ==> r
            == Ok::<u64, CustomError>(
            spec_time_decay_factor(start_time as int, end_time as int, creation_ts as int) as u64,
        ),
        r is Ok ==> r->Ok_0 <= 10_000,
{
    calculate_time_decay_factor(start_time, end_time, creation_ts)
}

/// Conviction bonus in basis points for a bet revised `update_count` times.
pub fn calculate_conviction_bonus(update_count: u32) -> (r: u64)
    ensures
        r == spec_conviction_bonus(update_count as int),
        r <= 10_000,
{
    let raw: u64 = (update_count as u64) * CONVICTION_BONUS_STEP_BPS;
    if raw <= CONVICTION_BONUS_CAP_BPS {
        raw
    } else {
        CONVICTION_BONUS_CAP_BPS
    }
}

/// The parimutuel weight of one bet in the winner pool.
pub fn calculate_parimutuel_weight(
    deposit: u64,
    accuracy_score: u64,
    time_bonus: u64,
    conviction_bonus: u64,
) -> (r: u128)
    requires
        time_bonus <= 10_000,
        conviction_bonus <= 10_000,
    ensures
        r == spec_parimutuel_weight(
            deposit as int,
            accuracy_score as int,
            time_bonus as int,
            conviction_bonus as int,
        ),
{
    proof {
        lemma_u64_mul_fits(deposit, accuracy_score);
    }
    let base: u128 = (deposit as u128) * (accuracy_score as u128) / MATH_PRECISION;
    let bonus_bps: u128 = 10_000 + (time_bonus as u128) + (conviction_bonus as u128);
    proof {
        lemma_mul_nonnegative(deposit as int, accuracy_score as int);
        lemma_div_pos_is_pos((deposit as int) * (accuracy_score as int), 1_000_000);
        lemma_div_is_ordered(
            (deposit as int) * (accuracy_score as int),
            (u64::MAX as int) * (u64::MAX as int),
            1_000_000,
        );
        lemma_mul_upper_bound(
            base as int,
            (u64::MAX as int) * (u64::MAX as int) / 1_000_000,
            bonus_bps as int,
            30_000,
        );
    }
    base * bonus_bps / 10_000
}

} // verus!
