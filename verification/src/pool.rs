use vstd::prelude::*;
use vstd::arithmetic::div_mod::lemma_div_pos_is_pos;
use vstd::arithmetic::mul::lemma_mul_nonnegative;

use crate::errors::CustomError;
use crate::fixed_math::{
    calculate_accuracy_score,
    calculate_conviction_bonus,
    calculate_time_bonus,
    calculate_parimutuel_weight,
    spec_accuracy_score,
    spec_conviction_bonus,
    spec_parimutuel_weight,
};
use crate::fixed_market::spec_pool_share;
use crate::infinite_math::{
    lemma_u64_mul_fits,
    spec_time_decay_factor,
    spec_time_decay_overflows,
};
use crate::state::{status_rank, BetStatus, GlobalConfig, MarketType, Pool, UserBet};

verus! {

/// Create a standalone parimutuel pool; admin only, window must be
/// non-empty.
pub fn create_pool(
    config: &GlobalConfig,
    caller: u64,
    name: u64,
    start_time: i64,
    end_time: i64,
    max_accuracy_buffer: u64,
    conviction_bonus_bps: u64,
) -> (r: Result<Pool, CustomError>)
    ensures
        caller != config.admin ==> r == Err::<Pool, CustomError>(CustomError::Unauthorized),
        caller == config.admin && end_time <= start_time ==> r == Err::<Pool, CustomError>(
            CustomError::DurationTooShort,
        ),
        r is Ok <==> (caller == config.admin && end_time > start_time),
        r is Ok ==> r->Ok_0 == (Pool {
            admin: caller,
            name,
            start_time,
            end_time,
            is_resolved: false,
            final_outcome: 0,
            resolution_ts: 0,
            total_weight: 0,
            weight_finalized: false,
            vault_balance: 0,
            locked_for_payouts: 0,
            max_accuracy_buffer,
            conviction_bonus_bps,
        }),
{
    if caller != config.admin {
        return Err(CustomError::Unauthorized);
    }
    if end_time <= start_time {
        return Err(CustomError::DurationTooShort);
    }
    Ok(
        Pool {
            admin: caller,
            name,
            start_time,
            end_time,
            is_resolved: false,
            final_outcome: 0,
            resolution_ts: 0,
            total_weight: 0,
            weight_finalized: false,
            vault_balance: 0,
            locked_for_payouts: 0,
            max_accuracy_buffer,
            conviction_bonus_bps,
        },
    )
}

/// Place a stake in an open pool: the protocol fee goes to the treasury
/// and the net stake joins the pot under a fresh commitment.
/// Returns the new bet and the fee owed the treasury.
pub fn place_bet(
    config: &GlobalConfig,
    pool: &mut Pool,
    owner: u64,
    amount: u64,
    commitment: [u8; 32],
    now: i64,
) -> (r: Result<(UserBet, u64), CustomError>)
    ensures
        r is Err ==> *final(pool) == *old(pool),
        config.paused ==> r == Err::<(UserBet, u64), CustomError>(CustomError::Paused),
        !config.paused && (now < old(pool).start_time || now >= old(pool).end_time) ==> r
            == Err::<(UserBet, u64), CustomError>(CustomError::DurationTooShort),
        r is Ok <==> (!config.paused && old(pool).start_time <= now < old(pool).end_time && ({
            let fee = amount as int * config.protocol_fee_bps / 10_000;
            fee <= amount && old(pool).vault_balance + (amount - fee) <= u64::MAX
        })),
        !config.paused && old(pool).start_time <= now < old(pool).end_time && r is Err ==> r->Err_0
            == CustomError::MathOverflow,
        r is Ok ==> ({
            let fee = amount as int * config.protocol_fee_bps / 10_000;
            let net = amount - fee;
            &&& r->Ok_0.1 == fee
            &&& r->Ok_0.0 == (UserBet {
                owner,
                market_identifier: old(pool).name,
                market_type: MarketType::Fixed,
                deposit: net as u64,
                end_timestamp: old(pool).end_time,
                payout_multiplier: 0,
                creation_ts: now,
                update_count: 0,
                calculated_weight: 0,
                is_weight_added: false,
                entry_price: 0,
                volatility_factor_at_entry: 0,
                referrer: None,
                commitment,
                is_revealed: false,
                prediction_low: 0,
                prediction_high: 0,
                prediction_target: 0,
                status: BetStatus::Active,
            })
            &&& *final(pool) == (Pool {
                vault_balance: (old(pool).vault_balance + net) as u64,
                ..*old(pool)
            })
        }),
{
    if config.paused {
        return Err(CustomError::Paused);
    }
    if now < pool.start_time {
        return Err(CustomError::DurationTooShort);
    }
    if now >= pool.end_time {
        return Err(CustomError::DurationTooShort);
    }
    proof {
        lemma_u64_mul_fits(amount, config.protocol_fee_bps);
        lemma_mul_nonnegative(amount as int, config.protocol_fee_bps as int);
        lemma_div_pos_is_pos((amount as int) * (config.protocol_fee_bps as int), 10_000);
    }
    let fee_wide: u128 = (amount as u128) * (config.protocol_fee_bps as u128) / 10_000;
    if fee_wide > amount as u128 {
        return Err(CustomError::MathOverflow);
    }
    let fee_amount: u64 = fee_wide as u64;
    let net_deposit: u64 = amount - fee_amount;
    let new_balance: u64 = match pool.vault_balance.checked_add(net_deposit) {
        Some(v) => v,
        None => {
            return Err(CustomError::MathOverflow);
        },
    };
    pool.vault_balance = new_balance;
    let bet = UserBet {
        owner,
        market_identifier: pool.name,
        market_type: MarketType::Fixed,
        deposit: net_deposit,
        end_timestamp: pool.end_time,
        payout_multiplier: 0,
        creation_ts: now,
        update_count: 0,
        calculated_weight: 0,
        is_weight_added: false,
        entry_price: 0,
        volatility_factor_at_entry: 0,
        referrer: None,
        commitment,
        is_revealed: false,
        prediction_low: 0,
        prediction_high: 0,
        prediction_target: 0,
        status: BetStatus::Active,
    };
    Ok((bet, fee_amount))
}

/// The parimutuel weight a bet earns in a resolved pool.
pub open spec fn spec_pool_bet_weight(p: Pool, b: UserBet) -> int {
    spec_parimutuel_weight(
        b.deposit as int,
        spec_accuracy_score(
            b.prediction_target as int,
            p.final_outcome as int,
            p.max_accuracy_buffer as int,
        ),
        spec_time_decay_factor(p.start_time as int, p.end_time as int, b.creation_ts as int),
        spec_conviction_bonus(b.update_count as int),
    )
}

/// Score one revealed, active bet of a resolved pool and add its weight to
/// the pool total. The weight is written exactly once and the bet advances
/// to Calculated.
pub fn calculate_pool_outcome(pool: &mut Pool, bet: &mut UserBet) -> (r: Result<(), CustomError>)
    requires
        old(bet).market_identifier == old(pool).name,
        old(pool).start_time < old(pool).end_time,
    ensures
        r is Err ==> *final(bet) == *old(bet) && *final(pool) == *old(pool),
        old(bet).status != BetStatus::Active ==> r == Err::<(), CustomError>(
            CustomError::AlreadySettled,
        ),
        old(bet).status == BetStatus::Active && !old(bet).is_revealed ==> r == Err::<(),
            CustomError,
        >(CustomError::BetNotRevealed),
        old(bet).status == BetStatus::Active && old(bet).is_revealed && !old(pool).is_resolved
            ==> r == Err::<(), CustomError>(CustomError::SettlementTooEarly),
        old(bet).status == BetStatus::Active && old(bet).is_revealed && old(pool).is_resolved
            && old(bet).is_weight_added ==> r == Err::<(), CustomError>(
            CustomError::AlreadySettled,
        ),
        r is Ok <==> (old(bet).status == BetStatus::Active && old(bet).is_revealed && old(
            pool,
        ).is_resolved && !old(bet).is_weight_added && !spec_time_decay_overflows(
            old(pool).start_time as int,
            old(pool).end_time as int,
            old(bet).creation_ts as int,
        ) && old(pool).total_weight + spec_pool_bet_weight(*old(pool), *old(bet)) <= u128::MAX),
        r is Ok ==> ({
            let weight = spec_pool_bet_weight(*old(pool), *old(bet));
            &&& *final(bet) == (UserBet {
                calculated_weight: weight as u128,
                is_weight_added: true,
                status: BetStatus::Calculated,
                ..*old(bet)
            })
            &&& *final(pool) == (Pool {
                total_weight: (old(pool).total_weight + weight) as u128,
                ..*old(pool)
            })
        }),
        status_rank(final(bet).status) >= status_rank(old(bet).status),
{
    if !matches!(bet.status, BetStatus::Active) {
        return Err(CustomError::AlreadySettled);
    }
    if !bet.is_revealed {
        return Err(CustomError::BetNotRevealed);
    }
    if !pool.is_resolved {
        return Err(CustomError::SettlementTooEarly);
    }
    if bet.is_weight_added {
        return Err(CustomError::AlreadySettled);
    }
    let accuracy_score: u64 = calculate_accuracy_score(
        bet.prediction_target,
        pool.final_outcome,
        pool.max_accuracy_buffer,
    );
    let time_bonus: u64 = match calculate_time_bonus(
        pool.start_time,
        pool.end_time,
        bet.creation_ts,
    ) {
        Ok(v) => v,
        Err(e) => {
            return Err(e);
        },
    };
    let conviction_bonus: u64 = calculate_conviction_bonus(bet.update_count);
    let weight: u128 = calculate_parimutuel_weight(
        bet.deposit,
        accuracy_score,
        time_bonus,
        conviction_bonus,
    );
    let new_total: u128 = match pool.total_weight.checked_add(weight) {
        Some(v) => v,
        None => {
            return Err(CustomError::MathOverflow);
        },
    };
    pool.total_weight = new_total;
    bet.calculated_weight = weight;
    bet.is_weight_added = true;
    bet.status = BetStatus::Calculated;
    Ok(())
}

/// Close a resolved pool's pot: deduct the protocol fee for the treasury
/// and freeze the remainder as the distributable pot.
/// Returns the fee owed the treasury.
pub fn finalize_weights(config: &GlobalConfig, pool: &mut Pool, caller: u64) -> (r: Result<
    u64,
    CustomError,
>)
    ensures
        r is Err ==> *final(pool) == *old(pool),
        caller != config.admin ==> r == Err::<u64, CustomError>(CustomError::Unauthorized),
        caller == config.admin && !old(pool).is_resolved ==> r == Err::<u64, CustomError>(
            CustomError::SettlementTooEarly,
        ),
        caller == config.admin && old(pool).is_resolved && old(pool).weight_finalized ==> r
            == Err::<u64, CustomError>(CustomError::AlreadySettled),
        r is Ok <==> (caller == config.admin && old(pool).is_resolved && !old(
            pool,
        ).weight_finalized && old(pool).vault_balance as int * config.protocol_fee_bps / 10_000
            <= old(pool).vault_balance),
        r is Ok ==> ({
            let fee = old(pool).vault_balance as int * config.protocol_fee_bps / 10_000;
            &&& r->Ok_0 == fee
            &&& *final(pool) == (Pool {
                vault_balance: (old(pool).vault_balance - fee) as u64,
                locked_for_payouts: (old(pool).vault_balance - fee) as u64,
                weight_finalized: true,
                ..*old(pool)
            })
        }),
{
    if caller != config.admin {
        return Err(CustomError::Unauthorized);
    }
    if !pool.is_resolved {
        return Err(CustomError::SettlementTooEarly);
    }
    if pool.weight_finalized {
        return Err(CustomError::AlreadySettled);
    }
    proof {
        lemma_u64_mul_fits(pool.vault_balance, config.protocol_fee_bps);
        lemma_mul_nonnegative(pool.vault_balance as int, config.protocol_fee_bps as int);
        lemma_div_pos_is_pos((pool.vault_balance as int) * (config.protocol_fee_bps as int), 10_000);
    }
    let fee_wide: u128 = (pool.vault_balance as u128) * (config.protocol_fee_bps as u128) / 10_000;
    if fee_wide > pool.vault_balance as u128 {
        return Err(CustomError::MathOverflow);
    }
    let fee_amount: u64 = fee_wide as u64;
    pool.vault_balance = pool.vault_balance - fee_amount;
    pool.locked_for_payouts = pool.vault_balance;
    pool.weight_finalized = true;
    Ok(fee_amount)
}

/// The pool claim computation fails closed on these inputs.
pub open spec fn spec_claim_pool_overflow(p: Pool, b: UserBet) -> bool {
    b.calculated_weight > 0 && p.total_weight > 0 && (b.calculated_weight as int
        * p.locked_for_payouts > u128::MAX || spec_pool_share(
        b.calculated_weight as int,
        p.locked_for_payouts as int,
        p.total_weight as int,
    ) > u64::MAX)
}

/// Pay out a calculated pool bet: its pro-rata share of the finalized pot.
/// The bet ends Settled. Returns the payout owed to the bettor.
pub fn claim_pool_reward(pool: &mut Pool, bet: &mut UserBet, caller: u64) -> (r: Result<
    u64,
    CustomError,
>)
    requires
        old(bet).market_identifier == old(pool).name,
    ensures
        r is Err ==> *final(bet) == *old(bet) && *final(pool) == *old(pool),
        caller != old(bet).owner ==> r == Err::<u64, CustomError>(CustomError::Unauthorized),
        caller == old(bet).owner && old(bet).status != BetStatus::Calculated ==> r == Err::<
            u64,
            CustomError,
        >(CustomError::SettlementTooEarly),
        caller == old(bet).owner && old(bet).status == BetStatus::Calculated && !old(
            pool,
        ).weight_finalized ==> r == Err::<u64, CustomError>(CustomError::SettlementTooEarly),
        caller == old(bet).owner && old(bet).status == BetStatus::Calculated && old(
            pool,
        ).weight_finalized && spec_claim_pool_overflow(*old(pool), *old(bet)) ==> r == Err::<
            u64,
            CustomError,
        >(CustomError::MathOverflow),
        caller == old(bet).owner && old(bet).status == BetStatus::Calculated && old(
            pool,
        ).weight_finalized && !spec_claim_pool_overflow(*old(pool), *old(bet)) && spec_pool_share(
            old(bet).calculated_weight as int,
            old(pool).locked_for_payouts as int,
            old(pool).total_weight as int,
        ) > old(pool).vault_balance ==> r == Err::<u64, CustomError>(
            CustomError::InsufficientLiquidity,
        ),
        r is Ok <==> (caller == old(bet).owner && old(bet).status == BetStatus::Calculated && old(
            pool,
        ).weight_finalized && !spec_claim_pool_overflow(*old(pool), *old(bet)) && spec_pool_share(
            old(bet).calculated_weight as int,
            old(pool).locked_for_payouts as int,
            old(pool).total_weight as int,
        ) <= old(pool).vault_balance),
        r is Ok ==> ({
            let payout = spec_pool_share(
                old(bet).calculated_weight as int,
                old(pool).locked_for_payouts as int,
                old(pool).total_weight as int,
            );
            &&& r->Ok_0 == payout
            &&& *final(bet) == (UserBet { status: BetStatus::Settled, ..*old(bet) })
            &&& *final(pool) == (Pool {
                vault_balance: (old(pool).vault_balance - payout) as u64,
                ..*old(pool)
            })
        }),
        status_rank(final(bet).status) >= status_rank(old(bet).status),
{
    if caller != bet.owner {
        return Err(CustomError::Unauthorized);
    }
    if !matches!(bet.status, BetStatus::Calculated) {
        return Err(CustomError::SettlementTooEarly);
    }
    if !pool.weight_finalized {
        return Err(CustomError::SettlementTooEarly);
    }
    let payout_amount: u64;
    if bet.calculated_weight > 0 && pool.total_weight > 0 {
        let pot: u128 = pool.locked_for_payouts as u128;
        let prod: u128 = match bet.calculated_weight.checked_mul(pot) {
            Some(v) => v,
            None => {
                return Err(CustomError::MathOverflow);
            },
        };
        let share: u128 = prod / pool.total_weight;
        if share > u64::MAX as u128 {
            return Err(CustomError::MathOverflow);
        }
        payout_amount = share as u64;
    } else {
        payout_amount = 0;
    }
    if payout_amount > pool.vault_balance {
        return Err(CustomError::InsufficientLiquidity);
    }
    pool.vault_balance = pool.vault_balance - payout_amount;
    bet.status = BetStatus::Settled;
    Ok(payout_amount)
}

} // verus!
