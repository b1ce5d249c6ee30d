use vstd::prelude::*;
use vstd::arithmetic::div_mod::{lemma_div_is_ordered, lemma_div_pos_is_pos};
use vstd::arithmetic::mul::{lemma_mul_inequality, lemma_mul_nonnegative};

use crate::commitment::{bytes32_eq, commitment_hash, keccak_of, spec_commit_message};
use crate::errors::CustomError;
use crate::infinite_math::{
    calculate_max_potential_profit,
    calculate_time_decay_factor,
    lemma_u64_mul_fits,
    spec_max_profit,
    spec_time_decay_factor,
    spec_time_decay_overflows,
};
use crate::state::{
    status_rank,
    FixedMarket,
    LiquidityVault,
    MarketMode,
    MarketType,
    BetStatus,
    UserBet,
};

verus! {

/// Seconds after placement within which a bet must be revealed.
pub const REVEAL_WINDOW_SECS: i64 = 300;

/// Penalty on a pre-reveal refund, in basis points.
pub const REFUND_PENALTY_BPS: u64 = 100;

/// Seconds after a bet's end before an emergency refund is allowed.
pub const REFUND_TIMEOUT_SECONDS: i64 = 60;

/// Reveal a committed prediction: recomputes the keccak commitment over the
/// supplied plaintext and requires bit-exact equality with what was stored
/// at placement. Succeeds exactly when the caller owns the bet, the bet is
/// not yet revealed, the caller holds a permission record, the reveal
/// window has not expired, and the hash matches.
pub fn reveal_bet(
    bet: &mut UserBet,
    caller: u64,
    has_permission: bool,
    now: i64,
    prediction_low: u64,
    prediction_high: u64,
    prediction_target: u64,
    salt: &[u8; 32],
) -> (r: Result<(), CustomError>)
    ensures
        r is Ok <==> (old(bet).owner == caller && !old(bet).is_revealed && has_permission && now
            <= old(bet).creation_ts + REVEAL_WINDOW_SECS && keccak_of(
            spec_commit_message(prediction_low, prediction_high, prediction_target, salt@),
        ) == old(bet).commitment@),
        r is Ok ==> *final(bet) == (UserBet {
            prediction_low,
            prediction_high,
            prediction_target,
            is_revealed: true,
            ..*old(bet)
        }),
        r is Err ==> *final(bet) == *old(bet),
        old(bet).owner != caller ==> r == Err::<(), CustomError>(CustomError::Unauthorized),
        old(bet).owner == caller && old(bet).is_revealed ==> r == Err::<(), CustomError>(
            CustomError::AlreadyRevealed,
        ),
        old(bet).owner == caller && !old(bet).is_revealed && !has_permission ==> r == Err::<(),
            CustomError,
        >(CustomError::Unauthorized),
        old(bet).owner == caller && !old(bet).is_revealed && has_permission && now > old(
            bet,
        ).creation_ts + REVEAL_WINDOW_SECS ==> r == Err::<(), CustomError>(
            CustomError::RevealWindowExpired,
        ),
        old(bet).owner == caller && !old(bet).is_revealed && has_permission && now <= old(
            bet,
        ).creation_ts + REVEAL_WINDOW_SECS && keccak_of(
            spec_commit_message(prediction_low, prediction_high, prediction_target, salt@),
        ) != old(bet).commitment@ ==> r == Err::<(), CustomError>(CustomError::InvalidCommitment),
        status_rank(final(bet).status) >= status_rank(old(bet).status),
{
    if bet.owner != caller {
        return Err(CustomError::Unauthorized);
    }
    if bet.is_revealed {
        return Err(CustomError::AlreadyRevealed);
    }
    if !has_permission {
        return Err(CustomError::Unauthorized);
    }
    match bet.creation_ts.checked_add(REVEAL_WINDOW_SECS) {
        Some(deadline) => {
            if now > deadline {
                return Err(CustomError::RevealWindowExpired);
            }
        },
        None => {
            // The deadline lies beyond representable time; the window is open.
        },
    }
    let calculated_hash = commitment_hash(prediction_low, prediction_high, prediction_target, salt);
    if !bytes32_eq(&calculated_hash, &bet.commitment) {
        return Err(CustomError::InvalidCommitment);
    }
    bet.prediction_low = prediction_low;
    bet.prediction_high = prediction_high;
    bet.prediction_target = prediction_target;
    bet.is_revealed = true;
    Ok(())
}

/// The multiplier a house-mode bet carries after an update: decayed by the
/// time factor, then charged the market's conviction penalty.
pub open spec fn spec_updated_multiplier_house(mult: int, decay: int, conviction_bps: int) -> int {
    let m1 = mult * decay / 10_000;
    let penalty = if conviction_bps <= 10_000 {
        10_000 - conviction_bps
    } else {
        0
    };
    m1 * penalty / 10_000
}

/// Rewrite the prediction of an active fixed-market bet through the
/// TEE-gated path. House mode recomputes the multiplier from the time decay
/// and conviction penalty and releases the freed liability; parimutuel mode
/// only re-stamps the bet.
pub fn update_bet_fixed(
    bet: &mut UserBet,
    market: &mut FixedMarket,
    caller: u64,
    has_permission: bool,
    now: i64,
    new_prediction_low: u64,
    new_prediction_high: u64,
    new_prediction_target: u64,
) -> (r: Result<(), CustomError>)
    requires
        old(bet).market_type == MarketType::Fixed,
        old(bet).market_identifier == old(market).name,
        old(market).start_time < old(market).end_time,
    ensures
        r is Err ==> *final(bet) == *old(bet) && *final(market) == *old(market),
        old(bet).owner != caller ==> r == Err::<(), CustomError>(CustomError::Unauthorized),
        old(bet).owner == caller && old(bet).status != BetStatus::Active ==> r == Err::<(),
            CustomError,
        >(CustomError::AlreadySettled),
        old(bet).owner == caller && old(bet).status == BetStatus::Active && !has_permission ==> r
            == Err::<(), CustomError>(CustomError::Unauthorized),
        old(bet).owner == caller && old(bet).status == BetStatus::Active && has_permission && now
            >= old(market).end_time ==> r == Err::<(), CustomError>(CustomError::DurationTooShort),
        r is Ok <==> (old(bet).owner == caller && old(bet).status == BetStatus::Active
            && has_permission && now < old(market).end_time && old(bet).update_count < u32::MAX && (
        old(market).mode == MarketMode::House ==> !spec_time_decay_overflows(
            old(market).start_time as int,
            old(market).end_time as int,
            now as int,
        ) && old(bet).max_profit() <= u64::MAX)),
        r is Ok && old(market).mode == MarketMode::House ==> ({
            let decay = spec_time_decay_factor(
                old(market).start_time as int,
                old(market).end_time as int,
                now as int,
            );
            let new_mult = spec_updated_multiplier_house(
                old(bet).payout_multiplier as int,
                decay,
                old(market).conviction_bonus_bps as int,
            );
            let old_profit = old(bet).max_profit();
            let new_profit = spec_max_profit(old(bet).deposit as int, new_mult);
            let reduction = old_profit - new_profit;
            &&& *final(bet) == (UserBet {
                creation_ts: now,
                update_count: (old(bet).update_count + 1) as u32,
                payout_multiplier: new_mult as u64,
                prediction_low: new_prediction_low,
                prediction_high: new_prediction_high,
                prediction_target: new_prediction_target,
                ..*old(bet)
            })
            &&& *final(market) == (FixedMarket {
                locked_for_payouts: if old(market).locked_for_payouts >= reduction {
                    (old(market).locked_for_payouts - reduction) as u64
                } else {
                    0
                },
                ..*old(market)
            })
        }),
        r is Ok && old(market).mode == MarketMode::Parimutuel ==> *final(bet) == (UserBet {
            creation_ts: now,
            update_count: (old(bet).update_count + 1) as u32,
            prediction_low: new_prediction_low,
            prediction_high: new_prediction_high,
            prediction_target: new_prediction_target,
            ..*old(bet)
        }) && *final(market) == *old(market),
        status_rank(final(bet).status) >= status_rank(old(bet).status),
{
    if bet.owner != caller {
        return Err(CustomError::Unauthorized);
    }
    if !matches!(bet.status, BetStatus::Active) {
        return Err(CustomError::AlreadySettled);
    }
    if !has_permission {
        return Err(CustomError::Unauthorized);
    }
    if now >= market.end_time {
        return Err(CustomError::DurationTooShort);
    }
    let new_count: u32 = match bet.update_count.checked_add(1) {
        Some(c) => c,
        None => {
            return Err(CustomError::MathOverflow);
        },
    };
    if matches!(market.mode, MarketMode::House) {
        let old_max_profit: u64 = match calculate_max_potential_profit(
            bet.deposit,
            bet.payout_multiplier,
        ) {
            Ok(v) => v,
            Err(e) => {
                return Err(e);
            },
        };
        let decay_factor: u64 = match calculate_time_decay_factor(
            market.start_time,
            market.end_time,
            now,
        ) {
            Ok(v) => v,
            Err(e) => {
                return Err(e);
            },
        };
        proof {
            lemma_u64_mul_fits(bet.payout_multiplier, decay_factor);
            assert((bet.payout_multiplier as int) * (decay_factor as int)
                <= (bet.payout_multiplier as int) * 10_000) by (nonlinear_arith)
                requires
                    decay_factor <= 10_000,
                    bet.payout_multiplier >= 0,
            ;
            lemma_div_is_ordered(
                (bet.payout_multiplier as int) * (decay_factor as int),
                (bet.payout_multiplier as int) * 10_000,
                10_000,
            );
            lemma_mul_nonnegative(bet.payout_multiplier as int, decay_factor as int);
            lemma_div_pos_is_pos((bet.payout_multiplier as int) * (decay_factor as int), 10_000);
        }
        let m1: u64 = (((bet.payout_multiplier as u128) * (decay_factor as u128)) / 10_000) as u64;
        let penalty_factor: u64 = 10_000u64.saturating_sub(market.conviction_bonus_bps);
        proof {
            lemma_u64_mul_fits(m1, penalty_factor);
            assert((m1 as int) * (penalty_factor as int) <= (m1 as int) * 10_000)
                by (nonlinear_arith)
                requires
                    penalty_factor <= 10_000,
                    m1 >= 0,
            ;
            lemma_div_is_ordered((m1 as int) * (penalty_factor as int), (m1 as int) * 10_000, 10_000);
            lemma_mul_nonnegative(m1 as int, penalty_factor as int);
            lemma_div_pos_is_pos((m1 as int) * (penalty_factor as int), 10_000);
        }
        let new_multiplier: u64 = (((m1 as u128) * (penalty_factor as u128)) / 10_000) as u64;
        proof {
            lemma_u64_mul_fits(bet.deposit, new_multiplier);
            lemma_mul_inequality(
                new_multiplier as int,
                bet.payout_multiplier as int,
                bet.deposit as int,
            );
            assert((bet.deposit as int) * (new_multiplier as int) <= (bet.deposit as int) * (
            bet.payout_multiplier as int)) by (nonlinear_arith)
                requires
                    new_multiplier <= bet.payout_multiplier,
                    bet.deposit >= 0,
            ;
            lemma_div_is_ordered(
                (bet.deposit as int) * (new_multiplier as int),
                (bet.deposit as int) * (bet.payout_multiplier as int),
                10_000,
            );
            lemma_mul_nonnegative(bet.deposit as int, new_multiplier as int);
            lemma_div_pos_is_pos((bet.deposit as int) * (new_multiplier as int), 10_000);
        }
        let new_max_profit: u64 = (((bet.deposit as u128) * (new_multiplier as u128)) / 10_000)
            as u64;
        let exposure_reduction: u64 = old_max_profit.saturating_sub(new_max_profit);
        bet.creation_ts = now;
        bet.update_count = new_count;
        bet.payout_multiplier = new_multiplier;
        market.locked_for_payouts = market.locked_for_payouts.saturating_sub(exposure_reduction);
    } else {
        bet.creation_ts = now;
        bet.update_count = new_count;
    }
    bet.prediction_low = new_prediction_low;
    bet.prediction_high = new_prediction_high;
    bet.prediction_target = new_prediction_target;
    Ok(())
}

/// Rewrite the prediction of an active infinite-market bet: the multiplier
/// is halved as a flat anti-abuse cost and the freed exposure released.
pub fn update_bet_infinite(
    bet: &mut UserBet,
    vault: &mut LiquidityVault,
    caller: u64,
    has_permission: bool,
    now: i64,
    new_prediction_low: u64,
    new_prediction_high: u64,
    new_prediction_target: u64,
) -> (r: Result<(), CustomError>)
    requires
        old(bet).market_type == MarketType::Infinite,
        old(bet).market_identifier == old(vault).asset_symbol,
    ensures
        r is Err ==> *final(bet) == *old(bet) && *final(vault) == *old(vault),
        old(bet).owner != caller ==> r == Err::<(), CustomError>(CustomError::Unauthorized),
        old(bet).owner == caller && old(bet).status != BetStatus::Active ==> r == Err::<(),
            CustomError,
        >(CustomError::AlreadySettled),
        old(bet).owner == caller && old(bet).status == BetStatus::Active && !has_permission ==> r
            == Err::<(), CustomError>(CustomError::Unauthorized),
        r is Ok <==> (old(bet).owner == caller && old(bet).status == BetStatus::Active
            && has_permission && old(bet).update_count < u32::MAX && old(bet).max_profit()
            <= u64::MAX),
        r is Ok ==> ({
            let new_mult = old(bet).payout_multiplier as int / 2;
            let old_profit = old(bet).max_profit();
            let new_profit = spec_max_profit(old(bet).deposit as int, new_mult);
            let reduction = old_profit - new_profit;
            &&& *final(bet) == (UserBet {
                creation_ts: now,
                update_count: (old(bet).update_count + 1) as u32,
                payout_multiplier: new_mult as u64,
                prediction_low: new_prediction_low,
                prediction_high: new_prediction_high,
                prediction_target: new_prediction_target,
                ..*old(bet)
            })
            &&& *final(vault) == (LiquidityVault {
                total_exposure: if old(vault).total_exposure >= reduction {
                    (old(vault).total_exposure - reduction) as u64
                } else {
                    0
                },
                ..*old(vault)
            })
        }),
        old(vault).solvent() ==> final(vault).solvent(),
        status_rank(final(bet).status) >= status_rank(old(bet).status),
{
    if bet.owner != caller {
        return Err(CustomError::Unauthorized);
    }
    if !matches!(bet.status, BetStatus::Active) {
        return Err(CustomError::AlreadySettled);
    }
    if !has_permission {
        return Err(CustomError::Unauthorized);
    }
    let new_count: u32 = match bet.update_count.checked_add(1) {
        Some(c) => c,
        None => {
            return Err(CustomError::MathOverflow);
        },
    };
    let old_max_profit: u64 = match calculate_max_potential_profit(
        bet.deposit,
        bet.payout_multiplier,
    ) {
        Ok(v) => v,
        Err(e) => {
            return Err(e);
        },
    };
    let new_multiplier: u64 = bet.payout_multiplier / 2;
    proof {
        lemma_u64_mul_fits(bet.deposit, new_multiplier);
        assert((bet.deposit as int) * (new_multiplier as int) <= (bet.deposit as int) * (
        bet.payout_multiplier as int)) by (nonlinear_arith)
            requires
                new_multiplier <= bet.payout_multiplier,
                bet.deposit >= 0,
        ;
        lemma_div_is_ordered(
            (bet.deposit as int) * (new_multiplier as int),
            (bet.deposit as int) * (bet.payout_multiplier as int),
            10_000,
        );
        lemma_mul_nonnegative(bet.deposit as int, new_multiplier as int);
        lemma_div_pos_is_pos((bet.deposit as int) * (new_multiplier as int), 10_000);
    }
    let new_max_profit: u64 = (((bet.deposit as u128) * (new_multiplier as u128)) / 10_000) as u64;
    let exposure_reduction: u64 = old_max_profit.saturating_sub(new_max_profit);
    vault.release_exposure(exposure_reduction);
    bet.creation_ts = now;
    bet.update_count = new_count;
    bet.payout_multiplier = new_multiplier;
    bet.prediction_low = new_prediction_low;
    bet.prediction_high = new_prediction_high;
    bet.prediction_target = new_prediction_target;
    Ok(())
}

} // verus!

verus! {

/// Refund of an unrevealed bet backed by the liquidity vault: the deposit
/// comes back minus a one-percent penalty routed to the treasury, and the
/// bet is terminally settled. A revealed bet must settle instead.
/// Returns the pair (refund to the bettor, penalty to the treasury).
pub fn refund_bet_infinite(bet: &mut UserBet, vault: &mut LiquidityVault, caller: u64, now: i64) -> (r: Result<
    (u64, u64),
    CustomError,
>)
    requires
        old(bet).market_type == MarketType::Infinite,
        old(bet).market_identifier == old(vault).asset_symbol,
    ensures
        r is Err ==> *final(bet) == *old(bet) && *final(vault) == *old(vault),
        old(bet).owner != caller ==> r == Err::<(u64, u64), CustomError>(CustomError::Unauthorized),
        old(bet).owner == caller && old(bet).status == BetStatus::Settled ==> r == Err::<
            (u64, u64),
            CustomError,
        >(CustomError::AlreadySettled),
        old(bet).owner == caller && old(bet).status != BetStatus::Settled && old(bet).is_revealed
            ==> r == Err::<(u64, u64), CustomError>(CustomError::CannotRefundRevealed),
        old(bet).owner == caller && old(bet).status != BetStatus::Settled && !old(bet).is_revealed
            && now <= old(bet).end_timestamp ==> r == Err::<(u64, u64), CustomError>(
            CustomError::SettlementTooEarly,
        ),
        r is Ok <==> (old(bet).owner == caller && old(bet).status != BetStatus::Settled && !old(
            bet,
        ).is_revealed && now > old(bet).end_timestamp && old(bet).deposit <= old(
            vault,
        ).total_assets),
        r is Ok ==> ({
            let penalty = old(bet).deposit as int * 100 / 10_000;
            &&& r->Ok_0.0 == old(bet).deposit - penalty
            &&& r->Ok_0.1 == penalty
            &&& *final(bet) == (UserBet { status: BetStatus::Settled, ..*old(bet) })
            &&& *final(vault) == (LiquidityVault {
                total_assets: (old(vault).total_assets - old(bet).deposit) as u64,
                ..*old(vault)
            })
        }),
        r is Ok && old(vault).total_exposure + old(bet).deposit <= old(vault).total_assets
            ==> final(vault).solvent(),
        status_rank(final(bet).status) >= status_rank(old(bet).status),
{
    if bet.owner != caller {
        return Err(CustomError::Unauthorized);
    }
    if matches!(bet.status, BetStatus::Settled) {
        return Err(CustomError::AlreadySettled);
    }
    if bet.is_revealed {
        return Err(CustomError::CannotRefundRevealed);
    }
    if now <= bet.end_timestamp {
        return Err(CustomError::SettlementTooEarly);
    }
    proof {
        assert((bet.deposit as int) * 100 <= (bet.deposit as int) * 10_000) by (nonlinear_arith)
            requires
                bet.deposit >= 0,
        ;
        assert((bet.deposit as int) * 10_000 / 10_000 == bet.deposit as int);
        lemma_div_is_ordered((bet.deposit as int) * 100, (bet.deposit as int) * 10_000, 10_000);
        lemma_mul_nonnegative(bet.deposit as int, 100);
        lemma_div_pos_is_pos((bet.deposit as int) * 100, 10_000);
    }
    let penalty_amount: u64 = (((bet.deposit as u128) * (REFUND_PENALTY_BPS as u128)) / 10_000) as u64;
    let refund_amount: u64 = bet.deposit - penalty_amount;
    if vault.total_assets < bet.deposit {
        return Err(CustomError::MathOverflow);
    }
    vault.total_assets = vault.total_assets - bet.deposit;
    bet.status = BetStatus::Settled;
    Ok((refund_amount, penalty_amount))
}

/// Refund of an unrevealed bet in a self-funded fixed market: identical
/// penalty rule, drawn from the market's own balance.
pub fn refund_bet_fixed(bet: &mut UserBet, market: &mut FixedMarket, caller: u64, now: i64) -> (r: Result<
    (u64, u64),
    CustomError,
>)
    requires
        old(bet).market_type == MarketType::Fixed,
        old(bet).market_identifier == old(market).name,
    ensures
        r is Err ==> *final(bet) == *old(bet) && *final(market) == *old(market),
        old(bet).owner != caller ==> r == Err::<(u64, u64), CustomError>(CustomError::Unauthorized),
        old(bet).owner == caller && old(bet).status == BetStatus::Settled ==> r == Err::<
            (u64, u64),
            CustomError,
        >(CustomError::AlreadySettled),
        old(bet).owner == caller && old(bet).status != BetStatus::Settled && old(bet).is_revealed
            ==> r == Err::<(u64, u64), CustomError>(CustomError::CannotRefundRevealed),
        old(bet).owner == caller && old(bet).status != BetStatus::Settled && !old(bet).is_revealed
            && now <= old(bet).end_timestamp ==> r == Err::<(u64, u64), CustomError>(
            CustomError::SettlementTooEarly,
        ),
        r is Ok <==> (old(bet).owner == caller && old(bet).status != BetStatus::Settled && !old(
            bet,
        ).is_revealed && now > old(bet).end_timestamp && old(bet).deposit <= old(
            market,
        ).vault_balance),
        r is Ok ==> ({
            let penalty = old(bet).deposit as int * 100 / 10_000;
            &&& r->Ok_0.0 == old(bet).deposit - penalty
            &&& r->Ok_0.1 == penalty
            &&& *final(bet) == (UserBet { status: BetStatus::Settled, ..*old(bet) })
            &&& *final(market) == (FixedMarket {
                vault_balance: (old(market).vault_balance - old(bet).deposit) as u64,
                ..*old(market)
            })
        }),
        status_rank(final(bet).status) >= status_rank(old(bet).status),
{
    if bet.owner != caller {
        return Err(CustomError::Unauthorized);
    }
    if matches!(bet.status, BetStatus::Settled) {
        return Err(CustomError::AlreadySettled);
    }
    if bet.is_revealed {
        return Err(CustomError::CannotRefundRevealed);
    }
    if now <= bet.end_timestamp {
        return Err(CustomError::SettlementTooEarly);
    }
    proof {
        assert((bet.deposit as int) * 100 <= (bet.deposit as int) * 10_000) by (nonlinear_arith)
            requires
                bet.deposit >= 0,
        ;
        assert((bet.deposit as int) * 10_000 / 10_000 == bet.deposit as int);
        lemma_div_is_ordered((bet.deposit as int) * 100, (bet.deposit as int) * 10_000, 10_000);
        lemma_mul_nonnegative(bet.deposit as int, 100);
        lemma_div_pos_is_pos((bet.deposit as int) * 100, 10_000);
    }
    let penalty_amount: u64 = (((bet.deposit as u128) * (REFUND_PENALTY_BPS as u128)) / 10_000) as u64;
    let refund_amount: u64 = bet.deposit - penalty_amount;
    if market.vault_balance < bet.deposit {
        return Err(CustomError::MathOverflow);
    }
    market.vault_balance = market.vault_balance - bet.deposit;
    bet.status = BetStatus::Settled;
    Ok((refund_amount, penalty_amount))
}

/// Last-resort full refund of a vault-backed bet long after its end: the
/// reserved exposure is released, the whole deposit comes back without
/// penalty, and the bet is terminally settled.
pub fn emergency_refund(bet: &mut UserBet, vault: &mut LiquidityVault, caller: u64, now: i64) -> (r: Result<
    u64,
    CustomError,
>)
    requires
        old(bet).market_type == MarketType::Infinite,
        old(bet).market_identifier == old(vault).asset_symbol,
    ensures
        r is Err ==> *final(bet) == *old(bet) && *final(vault) == *old(vault),
        old(bet).owner != caller ==> r == Err::<u64, CustomError>(CustomError::Unauthorized),
        old(bet).owner == caller && old(bet).status == BetStatus::Settled ==> r == Err::<
            u64,
            CustomError,
        >(CustomError::AlreadySettled),
        old(bet).owner == caller && old(bet).status != BetStatus::Settled && now <= old(
            bet,
        ).end_timestamp + REFUND_TIMEOUT_SECONDS ==> r == Err::<u64, CustomError>(
            CustomError::TimeoutNotMet,
        ),
        r is Ok <==> (old(bet).owner == caller && old(bet).status != BetStatus::Settled && now
            > old(bet).end_timestamp + REFUND_TIMEOUT_SECONDS && old(bet).max_profit()
            <= u64::MAX),
        r is Ok ==> ({
            let profit = old(bet).max_profit();
            &&& r->Ok_0 == old(bet).deposit
            &&& *final(bet) == (UserBet { status: BetStatus::Settled, ..*old(bet) })
            &&& final(vault).total_exposure == (if old(vault).total_exposure >= profit {
                old(vault).total_exposure - profit
            } else {
                0
            })
            &&& final(vault).total_assets == (if old(vault).total_assets >= old(bet).deposit {
                old(vault).total_assets - old(bet).deposit
            } else {
                0
            })
            &&& final(vault).total_shares == old(vault).total_shares
            &&& final(vault).accumulated_fees == old(vault).accumulated_fees
            &&& final(vault).token_mint == old(vault).token_mint
            &&& final(vault).asset_symbol == old(vault).asset_symbol
        }),
        r is Ok && old(vault).solvent() && crate::state::vault_backs_bet(*old(vault), *old(bet))
            ==> final(vault).solvent(),
        status_rank(final(bet).status) >= status_rank(old(bet).status),
{
    if bet.owner != caller {
        return Err(CustomError::Unauthorized);
    }
    if matches!(bet.status, BetStatus::Settled) {
        return Err(CustomError::AlreadySettled);
    }
    let timed_out: bool = match bet.end_timestamp.checked_add(REFUND_TIMEOUT_SECONDS) {
        Some(deadline) => now > deadline,
        None => false,
    };
    if !timed_out {
        return Err(CustomError::TimeoutNotMet);
    }
    let max_potential_profit: u64 = match calculate_max_potential_profit(
        bet.deposit,
        bet.payout_multiplier,
    ) {
        Ok(v) => v,
        Err(e) => {
            return Err(e);
        },
    };
    vault.release_exposure(max_potential_profit);
    let refund_amount: u64 = bet.deposit;
    if refund_amount > 0 {
        vault.total_assets = vault.total_assets.saturating_sub(refund_amount);
    }
    bet.status = BetStatus::Settled;
    Ok(refund_amount)
}

} // verus!
