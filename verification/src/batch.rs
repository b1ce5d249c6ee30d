use vstd::prelude::*;

use crate::errors::CustomError;
use crate::fixed_market::{spec_bet_accuracy, spec_bet_weight};
use crate::fixed_math::{
    calculate_accuracy_score,
    calculate_conviction_bonus,
    calculate_time_bonus,
    calculate_parimutuel_weight,
};
use crate::infinite_math::{
    calculate_max_potential_profit,
    calculate_settlement,
    spec_time_decay_overflows,
};
use crate::settlement::{
    execute_settlement_logic,
    spec_assets_after_settlement,
    spec_bet_settlement,
    spec_final_user_payout,
    spec_forced_fee,
    spec_settlement_fails,
    BetSettled,
    SettlementOutcome,
};
use crate::state::{
    status_rank,
    AssetConfig,
    BetStatus,
    FixedMarket,
    GlobalConfig,
    LiquidityVault,
    MarketMode,
    UserBet,
};

verus! {

/// Seconds after a market's resolution before forced calculation may run.
pub const BATCH_CALC_WAIT_SECS: i64 = 86_400;

/// An entry the forced settlement driver passes over silently: it is
/// already settled, or it belongs to a different market than the one in
/// scope (the defensive mismatch check). These are the only two skip
/// conditions; everything else that blocks an entry aborts the batch.
pub open spec fn spec_batch_entry_skipped(b: UserBet, symbol: u64) -> bool {
    b.status == BetStatus::Settled || b.market_identifier != symbol
}

/// One batch entry lets the forced driver proceed: it is skipped, or it is
/// an active bet whose per-bet timeout has elapsed and whose settlement
/// math stays in range.
pub open spec fn spec_batch_entry_ok(
    b: UserBet,
    symbol: u64,
    wait: int,
    now: int,
    mercy: int,
    actual: int,
) -> bool {
    spec_batch_entry_skipped(b, symbol) || (now > b.end_timestamp + wait && b.status
        == BetStatus::Active && !spec_settlement_fails(b, mercy, actual))
}

/// Why one batch entry aborts the forced driver, if it does: the checks
/// run in this order, and a skipped entry is never an error.
pub open spec fn spec_batch_entry_error(
    b: UserBet,
    symbol: u64,
    wait: int,
    now: int,
    mercy: int,
    actual: int,
) -> Option<CustomError> {
    if spec_batch_entry_skipped(b, symbol) {
        None
    } else if !(now > b.end_timestamp + wait) {
        Some(CustomError::SettlementTooEarly)
    } else if b.status != BetStatus::Active {
        Some(CustomError::AlreadySettled)
    } else if spec_settlement_fails(b, mercy, actual) {
        Some(CustomError::MathOverflow)
    } else {
        None
    }
}

/// The first entry error at or after position `i`, scanning in order.
pub open spec fn spec_first_batch_error(
    bets: Seq<UserBet>,
    symbol: u64,
    wait: int,
    now: int,
    mercy: int,
    actual: int,
    i: int,
) -> Option<CustomError>
    decreases bets.len() - i,
{
    if i < 0 || i >= bets.len() {
        None
    } else if spec_batch_entry_error(bets[i], symbol, wait, now, mercy, actual) is Some {
        spec_batch_entry_error(bets[i], symbol, wait, now, mercy, actual)
    } else {
        spec_first_batch_error(bets, symbol, wait, now, mercy, actual, i + 1)
    }
}

/// A clean prefix does not move the first error.
proof fn lemma_first_error_skips_clean_prefix(
    bets: Seq<UserBet>,
    symbol: u64,
    wait: int,
    now: int,
    mercy: int,
    actual: int,
    i: int,
)
    requires
        0 <= i <= bets.len(),
        forall|j: int|
            0 <= j < i ==> spec_batch_entry_error(bets[j], symbol, wait, now, mercy, actual)
                is None,
    ensures
        spec_first_batch_error(bets, symbol, wait, now, mercy, actual, 0)
            == spec_first_batch_error(bets, symbol, wait, now, mercy, actual, i),
    decreases i,
{
    if i > 0 {
        lemma_first_error_skips_clean_prefix(bets, symbol, wait, now, mercy, actual, i - 1);
    }
}

/// The forced-settlement outcome recorded for one non-skipped entry.
pub open spec fn spec_forced_outcome(b: UserBet, key: u64, mercy: int, actual: int) -> SettlementOutcome {
    let s = spec_bet_settlement(b, mercy, actual, b.referrer == Some(key));
    let up = spec_final_user_payout(s, true);
    SettlementOutcome {
        user_payout: up as u64,
        referrer_fee: s.referrer_fee,
        forced_fee: spec_forced_fee(s, true) as u64,
        event: BetSettled {
            user: b.owner,
            outcome_price: actual as u64,
            is_win: s.is_win,
            payout: up as u64,
            refund_amount: if s.is_win {
                0
            } else {
                up as u64
            },
            referral_fee: s.referrer_fee,
            forced_by_admin: true,
        },
    }
}

/// The vault after force-settling one entry; skipped entries leave it
/// unchanged.
pub open spec fn spec_settle_step(
    v: LiquidityVault,
    b: UserBet,
    key: u64,
    symbol: u64,
    mercy: int,
    actual: int,
) -> LiquidityVault {
    if spec_batch_entry_skipped(b, symbol) {
        v
    } else {
        let s = spec_bet_settlement(b, mercy, actual, b.referrer == Some(key));
        LiquidityVault {
            total_exposure: if v.total_exposure >= b.max_profit() {
                (v.total_exposure - b.max_profit()) as u64
            } else {
                0
            },
            total_assets: spec_assets_after_settlement(v.total_assets as int, s, true) as u64,
            ..v
        }
    }
}

/// The vault after force-settling the first `n` entries in order.
pub open spec fn spec_batch_vault_upto(
    v0: LiquidityVault,
    bets: Seq<UserBet>,
    keys: Seq<u64>,
    symbol: u64,
    mercy: int,
    actual: int,
    n: int,
) -> LiquidityVault
    decreases n,
{
    if n <= 0 {
        v0
    } else {
        spec_settle_step(
            spec_batch_vault_upto(v0, bets, keys, symbol, mercy, actual, n - 1),
            bets[n - 1],
            keys[n - 1],
            symbol,
            mercy,
            actual,
        )
    }
}

/// Admin-forced settlement of a caller-supplied list of bets against one
/// vault at one settlement price. Entries already settled, and entries
/// belonging to a different market than the one in scope, are skipped
/// silently and returned unchanged with no outcome, so re-running the
/// batch is safe; any other ineligible entry aborts the whole batch with
/// no effects. `referrer_keys[i]` is the referrer account supplied
/// alongside bet `i`; it only counts when it matches the referrer recorded
/// in the bet.
pub fn batch_settle(
    config: &GlobalConfig,
    vault: &mut LiquidityVault,
    asset_config: &AssetConfig,
    caller: u64,
    bets: &mut Vec<UserBet>,
    referrer_keys: &Vec<u64>,
    actual_price: u64,
    now: i64,
) -> (r: Result<Vec<Option<SettlementOutcome>>, CustomError>)
    requires
        old(bets)@.len() == referrer_keys@.len(),
    ensures
        r is Err ==> final(bets)@ == old(bets)@ && *final(vault) == *old(vault),
        caller != config.admin ==> r == Err::<Vec<Option<SettlementOutcome>>, CustomError>(
            CustomError::Unauthorized,
        ),
        r is Ok <==> (caller == config.admin && (forall|i: int|
            0 <= i < old(bets)@.len() ==> spec_batch_entry_ok(
                old(bets)@[i],
                asset_config.symbol,
                config.batch_settle_wait_secs as int,
                now as int,
                asset_config.mercy_buffer_bps as int,
                actual_price as int,
            ))),
        caller == config.admin && r is Err ==> r->Err_0 == spec_first_batch_error(
            old(bets)@,
            asset_config.symbol,
            config.batch_settle_wait_secs as int,
            now as int,
            asset_config.mercy_buffer_bps as int,
            actual_price as int,
            0,
        )->0,
        r is Ok ==> final(bets)@.len() == old(bets)@.len() && r->Ok_0@.len() == old(bets)@.len(),
        r is Ok ==> (forall|i: int|
            0 <= i < old(bets)@.len() && spec_batch_entry_skipped(
                old(bets)@[i],
                asset_config.symbol,
            ) ==> final(bets)@[i] == old(bets)@[i] && r->Ok_0@[i] is None),
        r is Ok ==> (forall|i: int|
            0 <= i < old(bets)@.len() && !spec_batch_entry_skipped(
                old(bets)@[i],
                asset_config.symbol,
            ) ==> final(bets)@[i] == (UserBet { status: BetStatus::Settled, ..old(bets)@[i] })
                && r->Ok_0@[i] == Some(
                spec_forced_outcome(
                    old(bets)@[i],
                    referrer_keys@[i],
                    asset_config.mercy_buffer_bps as int,
                    actual_price as int,
                ),
            )),
        r is Ok ==> *final(vault) == spec_batch_vault_upto(
            *old(vault),
            old(bets)@,
            referrer_keys@,
            asset_config.symbol,
            asset_config.mercy_buffer_bps as int,
            actual_price as int,
            old(bets)@.len() as int,
        ),
        forall|i: int|
            0 <= i < old(bets)@.len() ==> final(bets)@.len() == old(bets)@.len() && status_rank(
                final(bets)@[i].status,
            ) >= status_rank(old(bets)@[i].status),
{
    if caller != config.admin {
        return Err(CustomError::Unauthorized);
    }
    let n: usize = bets.len();
    // First pass: validate every entry without touching any state, so that
    // a bad entry aborts the batch with no partial effects.
    let mut i: usize = 0;
    while i < n
        invariant
            caller == config.admin,
            0 <= i <= n,
            n == bets@.len(),
            bets@.len() == referrer_keys@.len(),
            forall|j: int|
                0 <= j < i ==> spec_batch_entry_error(
                    bets@[j],
                    asset_config.symbol,
                    config.batch_settle_wait_secs as int,
                    now as int,
                    asset_config.mercy_buffer_bps as int,
                    actual_price as int,
                ) is None,
        decreases n - i,
    {
        let ghost symbol = asset_config.symbol;
        let ghost wait = config.batch_settle_wait_secs as int;
        let ghost mercy = asset_config.mercy_buffer_bps as int;
        let ghost actual = actual_price as int;
        proof {
            lemma_first_error_skips_clean_prefix(
                bets@,
                symbol,
                wait,
                now as int,
                mercy,
                actual,
                i as int,
            );
        }
        let b: UserBet = bets[i];
        let skipped: bool = matches!(b.status, BetStatus::Settled) || b.market_identifier
            != asset_config.symbol;
        if !skipped {
            let late_enough: bool = match b.end_timestamp.checked_add(
                config.batch_settle_wait_secs,
            ) {
                Some(deadline) => now > deadline,
                // The sum left i64: past the far end when the wait is
                // positive, before the near end when it is negative.
                None => config.batch_settle_wait_secs < 0,
            };
            if !late_enough {
                return Err(CustomError::SettlementTooEarly);
            }
            if !matches!(b.status, BetStatus::Active) {
                return Err(CustomError::AlreadySettled);
            }
            match calculate_max_potential_profit(b.deposit, b.payout_multiplier) {
                Ok(_) => {},
                Err(e) => {
                    return Err(e);
                },
            }
            match calculate_settlement(
                b.deposit,
                b.payout_multiplier,
                b.prediction_low,
                b.prediction_high,
                b.prediction_target,
                actual_price,
                b.entry_price,
                b.volatility_factor_at_entry,
                asset_config.mercy_buffer_bps,
                true,
            ) {
                Ok(_) => {},
                Err(e) => {
                    return Err(e);
                },
            }
            // Whether a referrer account was matched changes only who is
            // paid, not whether the math stays in range.
        }
        i += 1;
    }
    proof {
        lemma_first_error_skips_clean_prefix(
            bets@,
            asset_config.symbol,
            config.batch_settle_wait_secs as int,
            now as int,
            asset_config.mercy_buffer_bps as int,
            actual_price as int,
            n as int,
        );
    }
    // Second pass: settle each non-skipped entry in order.
    let ghost bets0 = bets@;
    let ghost v0 = *vault;
    let mut outcomes: Vec<Option<SettlementOutcome>> = Vec::new();
    let mut k: usize = 0;
    while k < n
        invariant
            caller == config.admin,
            0 <= k <= n,
            n == bets@.len(),
            bets@.len() == bets0.len(),
            bets0.len() == referrer_keys@.len(),
            forall|j: int|
                0 <= j < n ==> spec_batch_entry_error(
                    bets0[j],
                    asset_config.symbol,
                    config.batch_settle_wait_secs as int,
                    now as int,
                    asset_config.mercy_buffer_bps as int,
                    actual_price as int,
                ) is None,
            forall|j: int| k <= j < n ==> bets@[j] == bets0[j],
            forall|j: int|
                0 <= j < k && spec_batch_entry_skipped(bets0[j], asset_config.symbol)
                    ==> bets@[j] == bets0[j],
            forall|j: int|
                0 <= j < k && !spec_batch_entry_skipped(bets0[j], asset_config.symbol)
                    ==> bets@[j] == (UserBet { status: BetStatus::Settled, ..bets0[j] }),
            outcomes@.len() == k,
            forall|j: int|
                0 <= j < k && spec_batch_entry_skipped(bets0[j], asset_config.symbol)
                    ==> outcomes@[j] is None,
            forall|j: int|
                0 <= j < k && !spec_batch_entry_skipped(bets0[j], asset_config.symbol)
                    ==> outcomes@[j] == Some(
                    spec_forced_outcome(
                        bets0[j],
                        referrer_keys@[j],
                        asset_config.mercy_buffer_bps as int,
                        actual_price as int,
                    ),
                ),
            *vault == spec_batch_vault_upto(
                v0,
                bets0,
                referrer_keys@,
                asset_config.symbol,
                asset_config.mercy_buffer_bps as int,
                actual_price as int,
                k as int,
            ),
        decreases n - k,
    {
        let mut b: UserBet = bets[k];
        let skipped: bool = matches!(b.status, BetStatus::Settled) || b.market_identifier
            != asset_config.symbol;
        if !skipped {
            let referrer_present: bool = match b.referrer {
                Some(recorded) => recorded == referrer_keys[k],
                None => false,
            };
            match execute_settlement_logic(
                &mut b,
                vault,
                asset_config,
                actual_price,
                referrer_present,
                true,
            ) {
                Ok(outcome) => {
                    outcomes.push(Some(outcome));
                },
                Err(_) => {
                    // Unreachable: the first pass showed this entry settles.
                    return Err(CustomError::MathOverflow);
                },
            }
            bets[k] = b;
        } else {
            outcomes.push(None);
        }
        k += 1;
    }
    Ok(outcomes)
}

} // verus!

verus! {

/// A bet the forced calculation driver scores: it belongs to the market in
/// scope, is still active, and has been revealed. Anything else is skipped.
pub open spec fn spec_calc_eligible(m: FixedMarket, b: UserBet) -> bool {
    b.market_identifier == m.name && b.status == BetStatus::Active && b.is_revealed
}

/// The parimutuel weight a force-calculated bet earns: the ordinary weight
/// minus the flat five-percent penalty for relying on the admin.
pub open spec fn spec_forced_weight(m: FixedMarket, b: UserBet) -> int {
    let w = spec_bet_weight(
        m.start_time as int,
        m.end_time as int,
        m.resolution_target as int,
        m.max_accuracy_buffer as int,
        b,
    );
    w - w / 20
}

/// The house accuracy score a force-calculated bet records, after the same
/// five-percent penalty.
pub open spec fn spec_forced_score(m: FixedMarket, b: UserBet) -> int {
    let a = spec_bet_accuracy(m.resolution_target as int, m.max_accuracy_buffer as int, b);
    a - a / 20
}

/// Total forced weight of the eligible bets among the first `n` entries.
pub open spec fn spec_batch_weight_upto(m: FixedMarket, bets: Seq<UserBet>, n: int) -> int
    decreases n,
{
    if n <= 0 {
        0
    } else {
        spec_batch_weight_upto(m, bets, n - 1) + if spec_calc_eligible(m, bets[n - 1]) {
            spec_forced_weight(m, bets[n - 1])
        } else {
            0
        }
    }
}

/// Admin-forced scoring of a resolved market's bets, a day after
/// resolution at the earliest. Revealed, active bets of the market are
/// scored with a flat five-percent penalty; everything else is skipped.
/// A failing entry aborts the whole batch with no effects.
pub fn batch_calculate_outcome(market: &mut FixedMarket, bets: &mut Vec<UserBet>, now: i64) -> (r: Result<
    (),
    CustomError,
>)
    requires
        old(market).start_time < old(market).end_time,
    ensures
        r is Err ==> final(bets)@ == old(bets)@ && *final(market) == *old(market),
        !old(market).is_resolved ==> r == Err::<(), CustomError>(CustomError::SettlementTooEarly),
        old(market).is_resolved && old(market).mode == MarketMode::Parimutuel && old(
            market,
        ).weight_finalized ==> r == Err::<(), CustomError>(CustomError::AlreadySettled),
        old(market).is_resolved && (old(market).mode != MarketMode::Parimutuel || !old(
            market,
        ).weight_finalized) && now <= old(market).resolution_ts + BATCH_CALC_WAIT_SECS ==> r
            == Err::<(), CustomError>(CustomError::SettlementTooEarly),
        r is Ok <==> (old(market).is_resolved && (old(market).mode == MarketMode::Parimutuel
            ==> !old(market).weight_finalized) && now > old(market).resolution_ts
            + BATCH_CALC_WAIT_SECS && (old(market).mode == MarketMode::Parimutuel ==> (forall|
            i: int,
        |
            0 <= i < old(bets)@.len() && spec_calc_eligible(*old(market), old(bets)@[i])
                ==> !spec_time_decay_overflows(
                old(market).start_time as int,
                old(market).end_time as int,
                old(bets)@[i].creation_ts as int,
            )) && (forall|i: int|
            0 <= i <= old(bets)@.len() ==> old(market).total_weight + spec_batch_weight_upto(
                *old(market),
                old(bets)@,
                i,
            ) <= u128::MAX))),
        r is Ok ==> final(bets)@.len() == old(bets)@.len(),
        r is Ok ==> (forall|i: int|
            0 <= i < old(bets)@.len() && !spec_calc_eligible(*old(market), old(bets)@[i])
                ==> final(bets)@[i] == old(bets)@[i]),
        r is Ok ==> (forall|i: int|
            0 <= i < old(bets)@.len() && spec_calc_eligible(*old(market), old(bets)@[i])
                ==> final(bets)@[i] == (UserBet {
                calculated_weight: (if old(market).mode == MarketMode::Parimutuel {
                    spec_forced_weight(*old(market), old(bets)@[i])
                } else {
                    spec_forced_score(*old(market), old(bets)@[i])
                }) as u128,
                is_weight_added: true,
                status: BetStatus::Calculated,
                ..old(bets)@[i]
            })),
        r is Ok ==> *final(market) == (FixedMarket {
            total_weight: if old(market).mode == MarketMode::Parimutuel {
                (old(market).total_weight + spec_batch_weight_upto(
                    *old(market),
                    old(bets)@,
                    old(bets)@.len() as int,
                )) as u128
            } else {
                old(market).total_weight
            },
            ..*old(market)
        }),
        forall|i: int|
            0 <= i < old(bets)@.len() ==> final(bets)@.len() == old(bets)@.len() && status_rank(
                final(bets)@[i].status,
            ) >= status_rank(old(bets)@[i].status),
{
    let ghost m0 = *market;
    let ghost bets0 = bets@;
    if !market.is_resolved {
        return Err(CustomError::SettlementTooEarly);
    }
    if matches!(market.mode, MarketMode::Parimutuel) && market.weight_finalized {
        return Err(CustomError::AlreadySettled);
    }
    let late_enough: bool = match market.resolution_ts.checked_add(BATCH_CALC_WAIT_SECS) {
        Some(deadline) => now > deadline,
        None => false,
    };
    if !late_enough {
        return Err(CustomError::SettlementTooEarly);
    }
    let n: usize = bets.len();
    let parimutuel: bool = matches!(market.mode, MarketMode::Parimutuel);
    // First pass: validate the scoring of every eligible entry and compute
    // the new total weight, without touching any state.
    let mut running_total: u128 = market.total_weight;
    let mut i: usize = 0;
    while i < n
        invariant
            0 <= i <= n,
            n == bets@.len(),
            *market == m0,
            bets@ == bets0,
            parimutuel == (m0.mode == MarketMode::Parimutuel),
            m0.start_time < m0.end_time,
            m0.is_resolved,
            parimutuel ==> !m0.weight_finalized,
            now > m0.resolution_ts + BATCH_CALC_WAIT_SECS,
            running_total == m0.total_weight + (if parimutuel {
                spec_batch_weight_upto(m0, bets0, i as int)
            } else {
                0
            }),
            forall|j: int|
                0 <= j < i && spec_calc_eligible(m0, bets0[j]) && parimutuel
                    ==> !spec_time_decay_overflows(
                    m0.start_time as int,
                    m0.end_time as int,
                    bets0[j].creation_ts as int,
                ),
            parimutuel ==> (forall|j: int|
                0 <= j <= i ==> m0.total_weight + spec_batch_weight_upto(m0, bets0, j)
                    <= u128::MAX),
        decreases n - i,
    {
        let b: UserBet = bets[i];
        let eligible: bool = b.market_identifier == market.name && matches!(
            b.status,
            BetStatus::Active,
        ) && b.is_revealed;
        if eligible && parimutuel {
            let accuracy_score: u64 = calculate_accuracy_score(
                b.prediction_target,
                market.resolution_target,
                market.max_accuracy_buffer,
            );
            let time_bonus: u64 = match calculate_time_bonus(
                market.start_time,
                market.end_time,
                b.creation_ts,
            ) {
                Ok(v) => v,
                Err(e) => {
                    return Err(e);
                },
            };
            let conviction_bonus: u64 = calculate_conviction_bonus(b.update_count);
            let weight: u128 = calculate_parimutuel_weight(
                b.deposit,
                accuracy_score,
                time_bonus,
                conviction_bonus,
            );
            let penalty: u128 = weight / 20;
            let forced: u128 = weight - penalty;
            proof {
                crate::infinite_math::lemma_time_decay_bounds(
                    m0.start_time as int,
                    m0.end_time as int,
                    b.creation_ts as int,
                );
                assert(forced == spec_forced_weight(m0, bets0[i as int]));
                assert(spec_batch_weight_upto(m0, bets0, i + 1) == spec_batch_weight_upto(
                    m0,
                    bets0,
                    i as int,
                ) + forced);
            }
            running_total = match running_total.checked_add(forced) {
                Some(v) => v,
                None => {
                    return Err(CustomError::MathOverflow);
                },
            };
        }
        i += 1;
    }
    // Second pass: write the scores and advance each eligible bet.
    let mut k: usize = 0;
    while k < n
        invariant
            0 <= k <= n,
            n == bets@.len(),
            *market == m0,
            bets@.len() == bets0.len(),
            parimutuel == (m0.mode == MarketMode::Parimutuel),
            m0.start_time < m0.end_time,
            m0.is_resolved,
            parimutuel ==> !m0.weight_finalized,
            now > m0.resolution_ts + BATCH_CALC_WAIT_SECS,
            forall|j: int|
                0 <= j < n && spec_calc_eligible(m0, bets0[j]) && parimutuel
                    ==> !spec_time_decay_overflows(
                    m0.start_time as int,
                    m0.end_time as int,
                    bets0[j].creation_ts as int,
                ),
            forall|j: int| k <= j < n ==> bets@[j] == bets0[j],
            forall|j: int|
                0 <= j < k && !spec_calc_eligible(m0, bets0[j]) ==> bets@[j] == bets0[j],
            forall|j: int|
                0 <= j < k && spec_calc_eligible(m0, bets0[j]) ==> bets@[j] == (UserBet {
                    calculated_weight: (if parimutuel {
                        spec_forced_weight(m0, bets0[j])
                    } else {
                        spec_forced_score(m0, bets0[j])
                    }) as u128,
                    is_weight_added: true,
                    status: BetStatus::Calculated,
                    ..bets0[j]
                }),
        decreases n - k,
    {
        let mut b: UserBet = bets[k];
        let eligible: bool = b.market_identifier == market.name && matches!(
            b.status,
            BetStatus::Active,
        ) && b.is_revealed;
        if eligible {
            let accuracy_score: u64 = calculate_accuracy_score(
                b.prediction_target,
                market.resolution_target,
                market.max_accuracy_buffer,
            );
            if parimutuel {
                let time_bonus: u64 = match calculate_time_bonus(
                    market.start_time,
                    market.end_time,
                    b.creation_ts,
                ) {
                    Ok(v) => v,
                    Err(_) => {
                        // Unreachable: the first pass validated this entry.
                        return Err(CustomError::MathOverflow);
                    },
                };
                let conviction_bonus: u64 = calculate_conviction_bonus(b.update_count);
                let weight: u128 = calculate_parimutuel_weight(
                    b.deposit,
                    accuracy_score,
                    time_bonus,
                    conviction_bonus,
                );
                let penalty: u128 = weight / 20;
                proof {
                    crate::infinite_math::lemma_time_decay_bounds(
                        m0.start_time as int,
                        m0.end_time as int,
                        b.creation_ts as int,
                    );
                    assert(weight - penalty == spec_forced_weight(m0, bets0[k as int]));
                }
                b.calculated_weight = weight - penalty;
            } else {
                let score: u128 = accuracy_score as u128;
                let penalty: u128 = score / 20;
                b.calculated_weight = score - penalty;
            }
            b.is_weight_added = true;
            b.status = BetStatus::Calculated;
            bets[k] = b;
        }
        k += 1;
    }
    if parimutuel {
        market.total_weight = running_total;
    }
    Ok(())
}

} // verus!
