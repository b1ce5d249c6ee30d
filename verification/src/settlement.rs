use vstd::prelude::*;

use crate::errors::CustomError;
use crate::infinite_math::{
    calculate_max_potential_profit,
    calculate_settlement,
    spec_settlement,
    spec_settlement_overflows,
    SettlementResult,
};
use crate::state::{status_rank, vault_backs_bet, AssetConfig, BetStatus, LiquidityVault, UserBet};

verus! {

/// Flat fee deducted from large payouts on admin-forced settlement.
pub const FORCE_SETTLE_FEE: u64 = 1_000_000;

/// The settlement record emitted for each settled bet.
#[derive(Clone, Copy, Debug, PartialEq, Eq, Structural)]
pub struct BetSettled {
    /// The bettor.
    pub user: u64,
    /// The oracle price the bet settled against.
    pub outcome_price: u64,
    /// Whether the price landed inside the predicted range.
    pub is_win: bool,
    /// What was actually transferred to the bettor.
    pub payout: u64,
    /// The refund portion (equal to payout on a non-win, zero on a win).
    pub refund_amount: u64,
    /// What was transferred to the referrer.
    pub referral_fee: u64,
    /// Whether this was an admin-forced batch settlement.
    pub forced_by_admin: bool,
}

/// What the settlement engine asks the transfer collaborator to move, plus
/// the record of the decision.
#[derive(Clone, Copy, Debug, PartialEq, Eq, Structural)]
pub struct SettlementOutcome {
    /// Transfer from the vault to the bettor.
    pub user_payout: u64,
    /// Transfer from the vault to the referrer.
    pub referrer_fee: u64,
    /// Transfer from the vault to the protocol fee wallet (forced path).
    pub forced_fee: u64,
    /// The emitted settlement record.
    pub event: BetSettled,
}

/// The settlement decision for a bet at a given price.
pub open spec fn spec_bet_settlement(b: UserBet, mercy: int, actual: int, referrer_present: bool) -> SettlementResult {
    spec_settlement(
        b.deposit as int,
        b.payout_multiplier as int,
        b.prediction_low as int,
        b.prediction_high as int,
        b.prediction_target as int,
        actual,
        b.entry_price as int,
        b.volatility_factor_at_entry as int,
        mercy,
        referrer_present,
    )
}

/// The settlement computation fails closed for this bet and price.
pub open spec fn spec_settlement_fails(b: UserBet, mercy: int, actual: int) -> bool {
    b.max_profit() > u64::MAX || spec_settlement_overflows(
        b.deposit as int,
        b.payout_multiplier as int,
        b.prediction_low as int,
        b.prediction_high as int,
        b.prediction_target as int,
        actual,
        b.entry_price as int,
        b.volatility_factor_at_entry as int,
        mercy,
    )
}

/// What the bettor is finally paid: on the forced path a losing refund is
/// forfeited back to the vault and large payouts pay a flat fee.
pub open spec fn spec_final_user_payout(s: SettlementResult, is_admin_forced: bool) -> int {
    if is_admin_forced {
        let u1: int = if !s.is_win && s.payout > 0 {
            0
        } else {
            s.payout as int
        };
        if u1 > 1_000_000 {
            u1 - 1_000_000
        } else {
            u1
        }
    } else {
        s.payout as int
    }
}

/// The flat fee taken on the forced path, if any.
pub open spec fn spec_forced_fee(s: SettlementResult, is_admin_forced: bool) -> int {
    if is_admin_forced {
        let u1: int = if !s.is_win && s.payout > 0 {
            0
        } else {
            s.payout as int
        };
        if u1 > 1_000_000 {
            1_000_000
        } else {
            0
        }
    } else {
        0
    }
}

/// The vault's assets after settlement: the outflow leaves (saturating at
/// zero), and on the forced path a forfeited losing refund comes back.
pub open spec fn spec_assets_after_settlement(
    assets: int,
    s: SettlementResult,
    is_admin_forced: bool,
) -> int {
    let out = s.payout + s.referrer_fee;
    let a1: int = if assets >= out {
        assets - out
    } else {
        0
    };
    if is_admin_forced && !s.is_win && s.payout > 0 {
        a1 + s.payout
    } else {
        a1
    }
}

/// The shared settlement procedure: releases the bet's reserved exposure,
/// prices the bet, debits the vault, applies forced-settlement forfeits and
/// fees, and marks the bet settled.
///
/// Only a bet whose status is still Active settles; a bet that was never
/// revealed settles with its all-zero prediction treated as a void range,
/// which the design preserves deliberately. Given a vault that backs the
/// bet, settlement keeps the vault solvent.
pub fn execute_settlement_logic(
    bet: &mut UserBet,
    vault: &mut LiquidityVault,
    asset_config: &AssetConfig,
    actual_price: u64,
    referrer_present: bool,
    is_admin_forced: bool,
) -> (r: Result<SettlementOutcome, CustomError>)
    ensures
        r is Ok <==> old(bet).status == BetStatus::Active && !spec_settlement_fails(
            *old(bet),
            asset_config.mercy_buffer_bps as int,
            actual_price as int,
        ),
        r is Err ==> *final(bet) == *old(bet) && *final(vault) == *old(vault),
        old(bet).status != BetStatus::Active ==> r == Err::<SettlementOutcome, CustomError>(
            CustomError::AlreadySettled,
        ),
        old(bet).status == BetStatus::Active && r is Err ==> r->Err_0
            == CustomError::MathOverflow,
        r is Ok ==> *final(bet) == (UserBet { status: BetStatus::Settled, ..*old(bet) }),
        r is Ok ==> ({
            let s = spec_bet_settlement(
                *old(bet),
                asset_config.mercy_buffer_bps as int,
                actual_price as int,
                referrer_present,
            );
            &&& final(vault).total_exposure == (if old(vault).total_exposure >= old(bet).max_profit() {
                old(vault).total_exposure - old(bet).max_profit()
            } else {
                0
            })
            &&& final(vault).total_assets == spec_assets_after_settlement(
                old(vault).total_assets as int,
                s,
                is_admin_forced,
            )
            &&& final(vault).total_shares == old(vault).total_shares
            &&& final(vault).accumulated_fees == old(vault).accumulated_fees
            &&& final(vault).token_mint == old(vault).token_mint
            &&& final(vault).asset_symbol == old(vault).asset_symbol
            &&& r->Ok_0.user_payout == spec_final_user_payout(s, is_admin_forced)
            &&& r->Ok_0.referrer_fee == s.referrer_fee
            &&& r->Ok_0.forced_fee == spec_forced_fee(s, is_admin_forced)
            &&& r->Ok_0.event == (BetSettled {
                user: old(bet).owner,
                outcome_price: actual_price,
                is_win: s.is_win,
                payout: r->Ok_0.user_payout,
                refund_amount: if s.is_win {
                    0
                } else {
                    r->Ok_0.user_payout
                },
                referral_fee: s.referrer_fee,
                forced_by_admin: is_admin_forced,
            })
        }),
        r is Ok && old(vault).solvent() && vault_backs_bet(*old(vault), *old(bet)) ==> final(vault).solvent(),
        status_rank(final(bet).status) >= status_rank(old(bet).status),
{
    let ghost v0 = *vault;
    let ghost b0 = *bet;
    if !matches!(bet.status, BetStatus::Active) {
        return Err(CustomError::AlreadySettled);
    }
    // Everything that can fail is computed before any state changes, so a
    // failure leaves no partial effects.
    let max_potential_profit: u64 = match calculate_max_potential_profit(
        bet.deposit,
        bet.payout_multiplier,
    ) {
        Ok(v) => v,
        Err(e) => {
            return Err(e);
        },
    };
    let settlement: SettlementResult = match calculate_settlement(
        bet.deposit,
        bet.payout_multiplier,
        bet.prediction_low,
        bet.prediction_high,
        bet.prediction_target,
        actual_price,
        bet.entry_price,
        bet.volatility_factor_at_entry,
        asset_config.mercy_buffer_bps,
        referrer_present,
    ) {
        Ok(s) => s,
        Err(e) => {
            return Err(e);
        },
    };
    // Release the exposure reserved at placement.
    vault.release_exposure(max_potential_profit);
    // The whole outflow fits: a winning payout already fits in a u64 and
    // carries no referrer fee, and a losing payout plus fee is at most the
    // deposit.
    assert(settlement.payout + settlement.referrer_fee <= u64::MAX);
    let total_outflow: u64 = settlement.payout + settlement.referrer_fee;
    vault.total_assets = vault.total_assets.saturating_sub(total_outflow);
    let mut final_user_payout: u64 = settlement.payout;
    let mut forced_fee: u64 = 0;
    if is_admin_forced {
        // A losing refund on the forced path is forfeited back to the vault.
        if !settlement.is_win && final_user_payout > 0 {
            assert(vault.total_assets + final_user_payout <= v0.total_assets
                || vault.total_assets == 0);
            vault.total_assets = vault.total_assets + final_user_payout;
            final_user_payout = 0;
        }
        if final_user_payout > FORCE_SETTLE_FEE {
            final_user_payout = final_user_payout - FORCE_SETTLE_FEE;
            forced_fee = FORCE_SETTLE_FEE;
        }
    }
    bet.status = BetStatus::Settled;
    proof {
        if v0.solvent() && vault_backs_bet(v0, b0) {
            assert(settlement.payout + settlement.referrer_fee <= b0.deposit + b0.max_profit());
            assert(v0.total_assets - total_outflow >= v0.total_exposure - max_potential_profit);
        }
    }
    let event = BetSettled {
        user: bet.owner,
        outcome_price: actual_price,
        is_win: settlement.is_win,
        payout: final_user_payout,
        refund_amount: if settlement.is_win {
            0
        } else {
            final_user_payout
        },
        referral_fee: settlement.referrer_fee,
        forced_by_admin: is_admin_forced,
    };
    Ok(
        SettlementOutcome {
            user_payout: final_user_payout,
            referrer_fee: settlement.referrer_fee,
            forced_fee,
            event,
        },
    )
}

/// User-facing settlement of a single bet at the oracle price the caller
/// fetched for the bet's end time.
pub fn settle_bet(
    bet: &mut UserBet,
    vault: &mut LiquidityVault,
    asset_config: &AssetConfig,
    actual_price: u64,
    referrer_present: bool,
) -> (r: Result<SettlementOutcome, CustomError>)
    ensures
        r is Ok <==> old(bet).status == BetStatus::Active && !spec_settlement_fails(
            *old(bet),
            asset_config.mercy_buffer_bps as int,
            actual_price as int,
        ),
        r is Err ==> *final(bet) == *old(bet) && *final(vault) == *old(vault),
        old(bet).status != BetStatus::Active ==> r == Err::<SettlementOutcome, CustomError>(
            CustomError::AlreadySettled,
        ),
        r is Ok ==> *final(bet) == (UserBet { status: BetStatus::Settled, ..*old(bet) }),
        r is Ok ==> ({
            let s = spec_bet_settlement(
                *old(bet),
                asset_config.mercy_buffer_bps as int,
                actual_price as int,
                referrer_present,
            );
            &&& r->Ok_0.user_payout == s.payout
            &&& r->Ok_0.referrer_fee == s.referrer_fee
            &&& r->Ok_0.forced_fee == 0
            &&& final(vault).total_assets == spec_assets_after_settlement(
                old(vault).total_assets as int,
                s,
                false,
            )
            &&& final(vault).total_exposure == (if old(vault).total_exposure >= old(bet).max_profit() {
                old(vault).total_exposure - old(bet).max_profit()
            } else {
                0
            })
            &&& final(vault).total_shares == old(vault).total_shares
            &&& final(vault).accumulated_fees == old(vault).accumulated_fees
            &&& final(vault).token_mint == old(vault).token_mint
            &&& final(vault).asset_symbol == old(vault).asset_symbol
            &&& r->Ok_0.event == (BetSettled {
                user: old(bet).owner,
                outcome_price: actual_price,
                is_win: s.is_win,
                payout: s.payout,
                refund_amount: if s.is_win {
                    0
                } else {
                    s.payout
                },
                referral_fee: s.referrer_fee,
                forced_by_admin: false,
            })
        }),
        r is Ok && old(vault).solvent() && vault_backs_bet(*old(vault), *old(bet)) ==> final(vault).solvent(),
        status_rank(final(bet).status) >= status_rank(old(bet).status),
{
    execute_settlement_logic(bet, vault, asset_config, actual_price, referrer_present, false)
}

} // verus!
