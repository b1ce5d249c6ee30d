use vstd::prelude::*;
use vstd::arithmetic::div_mod::lemma_div_is_ordered;
use vstd::arithmetic::mul::{lemma_mul_inequality, lemma_mul_is_distributive_add};

use crate::batch::{spec_batch_entry_skipped, spec_batch_vault_upto};
use crate::infinite_math::{spec_assets_to_withdraw, spec_shares_to_mint};
use crate::state::{BetStatus, LiquidityVault, UserBet};

verus! {

// The model below mirrors, operation for operation, what the executable
// contracts say the vault does: `place_bet` reserves a bet's potential
// profit and banks its deposit, `update_bet_infinite` releases part of the
// profit, `execute_settlement_logic` pays out at most deposit plus profit
// and releases the profit, `refund_bet_infinite` returns the deposit
// without releasing the profit, and `emergency_refund` returns the deposit
// and releases the profit.

/// One open bet as the vault's books see it.
pub struct OpenBet {
    /// The banked deposit.
    pub deposit: int,
    /// The reserved maximum potential profit.
    pub profit: int,
}

/// The vault's books: assets and exposure, plus the per-bet entries they
/// are supposed to account for (closed entries are None).
pub struct VaultBooks {
    /// Mirrors `LiquidityVault::total_assets`.
    pub assets: int,
    /// Mirrors `LiquidityVault::total_exposure`.
    pub exposure: int,
    /// One entry per bet ever placed; None once closed.
    pub open: Seq<Option<OpenBet>>,
}

/// An operation of the vault's lifecycle.
pub enum VaultOp {
    /// A bet is placed: deposit banked, profit reserved.
    Place { deposit: int, profit: int },
    /// An open bet's reserved profit shrinks (prediction update).
    Update { i: int, new_profit: int },
    /// An open bet settles: the bettor is paid `payout`, the profit is
    /// released, the entry closes.
    Settle { i: int, payout: int },
    /// An unrevealed open bet is refunded: its deposit leaves, but its
    /// reserved profit is never released.
    Refund { i: int },
    /// A stuck open bet is refunded in full and its profit released.
    EmergencyRefund { i: int },
}

/// Sum of the deposits of the open entries.
pub open spec fn sum_deposits(s: Seq<Option<OpenBet>>) -> int
    decreases s.len(),
{
    if s.len() == 0 {
        0
    } else {
        (match s[0] {
            Some(b) => b.deposit,
            None => 0,
        }) + sum_deposits(s.drop_first())
    }
}

/// Sum of the reserved profits of the open entries.
pub open spec fn sum_profits(s: Seq<Option<OpenBet>>) -> int
    decreases s.len(),
{
    if s.len() == 0 {
        0
    } else {
        (match s[0] {
            Some(b) => b.profit,
            None => 0,
        }) + sum_profits(s.drop_first())
    }
}

/// Every open entry is nonnegative.
pub open spec fn entries_nonneg(s: Seq<Option<OpenBet>>) -> bool {
    forall|i: int|
        0 <= i < s.len() && s[i] is Some ==> s[i]->0.deposit >= 0 && s[i]->0.profit >= 0
}

/// The books balance: the reserved profits are all counted inside the
/// exposure, and the assets cover the exposure plus every banked deposit.
/// This is the inductive invariant behind the solvency property.
pub open spec fn backed(s: VaultBooks) -> bool {
    &&& entries_nonneg(s.open)
    &&& sum_profits(s.open) <= s.exposure
    &&& s.exposure + sum_deposits(s.open) <= s.assets
}

/// The guard of each operation: what the executable code checks, plus, for
/// placement, the margin that keeps the books balanced. The margin demands
/// more than the code's own solvency check (which compares exposure plus
/// the new profit against the assets alone); a placement that passes the
/// code's check but not the margin is exactly where the solvency invariant
/// can later fail.
pub open spec fn op_allowed(s: VaultBooks, op: VaultOp) -> bool {
    match op {
        VaultOp::Place { deposit, profit } => deposit >= 0 && profit >= 0 && s.exposure + profit
            + sum_deposits(s.open) <= s.assets,
        VaultOp::Update { i, new_profit } => 0 <= i < s.open.len() && s.open[i] is Some && 0
            <= new_profit <= s.open[i]->0.profit,
        VaultOp::Settle { i, payout } => 0 <= i < s.open.len() && s.open[i] is Some && 0 <= payout
            <= s.open[i]->0.deposit + s.open[i]->0.profit,
        VaultOp::Refund { i } => 0 <= i < s.open.len() && s.open[i] is Some,
        VaultOp::EmergencyRefund { i } => 0 <= i < s.open.len() && s.open[i] is Some,
    }
}

/// The books after one operation.
pub open spec fn vault_step(s: VaultBooks, op: VaultOp) -> VaultBooks {
    match op {
        VaultOp::Place { deposit, profit } => VaultBooks {
            assets: s.assets + deposit,
            exposure: s.exposure + profit,
            open: s.open.push(Some(OpenBet { deposit, profit })),
        },
        VaultOp::Update { i, new_profit } => VaultBooks {
            assets: s.assets,
            exposure: s.exposure - (s.open[i]->0.profit - new_profit),
            open: s.open.update(
                i,
                Some(OpenBet { deposit: s.open[i]->0.deposit, profit: new_profit }),
            ),
        },
        VaultOp::Settle { i, payout } => VaultBooks {
            assets: s.assets - payout,
            exposure: s.exposure - s.open[i]->0.profit,
            open: s.open.update(i, None),
        },
        VaultOp::Refund { i } => VaultBooks {
            assets: s.assets - s.open[i]->0.deposit,
            exposure: s.exposure,
            open: s.open.update(i, None),
        },
        VaultOp::EmergencyRefund { i } => VaultBooks {
            assets: s.assets - s.open[i]->0.deposit,
            exposure: s.exposure - s.open[i]->0.profit,
            open: s.open.update(i, None),
        },
    }
}

/// The books after a whole sequence of operations.
pub open spec fn vault_run(s: VaultBooks, ops: Seq<VaultOp>) -> VaultBooks
    decreases ops.len(),
{
    if ops.len() == 0 {
        s
    } else {
        vault_run(vault_step(s, ops[0]), ops.drop_first())
    }
}

/// Every operation of a sequence is allowed at the state it runs in.
pub open spec fn ops_allowed(s: VaultBooks, ops: Seq<VaultOp>) -> bool
    decreases ops.len(),
{
    ops.len() == 0 || (op_allowed(s, ops[0]) && ops_allowed(vault_step(s, ops[0]), ops.drop_first()))
}

/// Closing or shrinking one entry changes the sums by that entry alone.
proof fn lemma_sum_update(s: Seq<Option<OpenBet>>, i: int, v: Option<OpenBet>)
    requires
        0 <= i < s.len(),
    ensures
        sum_deposits(s.update(i, v)) == sum_deposits(s) - (match s[i] {
            Some(b) => b.deposit,
            None => 0,
        }) + (match v {
            Some(b) => b.deposit,
            None => 0,
        }),
        sum_profits(s.update(i, v)) == sum_profits(s) - (match s[i] {
            Some(b) => b.profit,
            None => 0,
        }) + (match v {
            Some(b) => b.profit,
            None => 0,
        }),
    decreases s.len(),
{
    if i == 0 {
        assert(s.update(0, v).drop_first() =~= s.drop_first());
    } else {
        assert(s.update(i, v).drop_first() =~= s.drop_first().update(i - 1, v));
        assert(s.update(i, v)[0] == s[0]);
        lemma_sum_update(s.drop_first(), i - 1, v);
    }
}

/// Appending one entry adds it to the sums.
proof fn lemma_sum_push(s: Seq<Option<OpenBet>>, v: Option<OpenBet>)
    ensures
        sum_deposits(s.push(v)) == sum_deposits(s) + (match v {
            Some(b) => b.deposit,
            None => 0,
        }),
        sum_profits(s.push(v)) == sum_profits(s) + (match v {
            Some(b) => b.profit,
            None => 0,
        }),
    decreases s.len(),
{
    if s.len() == 0 {
        assert(s.push(v)[0] == v);
        assert(s.push(v).drop_first() =~= Seq::<Option<OpenBet>>::empty());
        assert(sum_deposits(Seq::<Option<OpenBet>>::empty()) == 0);
        assert(sum_profits(Seq::<Option<OpenBet>>::empty()) == 0);
    } else {
        assert(s.push(v).drop_first() =~= s.drop_first().push(v));
        assert(s.push(v)[0] == s[0]);
        lemma_sum_push(s.drop_first(), v);
    }
}

/// An open entry's deposit and profit are each at most the whole sum.
proof fn lemma_entry_le_sum(s: Seq<Option<OpenBet>>, i: int)
    requires
        entries_nonneg(s),
        0 <= i < s.len(),
        s[i] is Some,
    ensures
        s[i]->0.deposit <= sum_deposits(s),
        s[i]->0.profit <= sum_profits(s),
        sum_deposits(s) >= 0,
        sum_profits(s) >= 0,
    decreases s.len(),
{
    assert(entries_nonneg(s.drop_first())) by {
        assert(forall|j: int|
            0 <= j < s.drop_first().len() ==> s.drop_first()[j] == s[j + 1]);
    }
    if s.len() > 0 {
        if i == 0 {
            lemma_sums_nonneg(s.drop_first());
        } else {
            lemma_entry_le_sum(s.drop_first(), i - 1);
        }
    }
}

/// The sums of nonnegative entries are nonnegative.
proof fn lemma_sums_nonneg(s: Seq<Option<OpenBet>>)
    requires
        entries_nonneg(s),
    ensures
        sum_deposits(s) >= 0,
        sum_profits(s) >= 0,
    decreases s.len(),
{
    if s.len() > 0 {
        assert(entries_nonneg(s.drop_first())) by {
            assert(forall|j: int|
                0 <= j < s.drop_first().len() ==> s.drop_first()[j] == s[j + 1]);
        }
        lemma_sums_nonneg(s.drop_first());
    }
}

/// One allowed operation keeps the books balanced, and balanced books are
/// solvent: the exposure never exceeds the assets.
pub proof fn lemma_vault_step_preserves_backing(s: VaultBooks, op: VaultOp)
    requires
        backed(s),
        op_allowed(s, op),
    ensures
        backed(vault_step(s, op)),
        vault_step(s, op).exposure <= vault_step(s, op).assets,
{
    lemma_sums_nonneg(s.open);
    match op {
        VaultOp::Place { deposit, profit } => {
            lemma_sum_push(s.open, Some(OpenBet { deposit, profit }));
            assert(entries_nonneg(s.open.push(Some(OpenBet { deposit, profit })))) by {
                assert(forall|j: int|
                    0 <= j < s.open.len() ==> s.open.push(Some(OpenBet { deposit, profit }))[j]
                        == s.open[j]);
            }
        },
        VaultOp::Update { i, new_profit } => {
            let v = Some(OpenBet { deposit: s.open[i]->0.deposit, profit: new_profit });
            lemma_sum_update(s.open, i, v);
            lemma_entry_le_sum(s.open, i);
            assert(entries_nonneg(s.open.update(i, v))) by {
                assert(forall|j: int|
                    0 <= j < s.open.len() && j != i ==> s.open.update(i, v)[j] == s.open[j]);
            }
        },
        VaultOp::Settle { i, payout } => {
            lemma_sum_update(s.open, i, None);
            lemma_entry_le_sum(s.open, i);
            assert(entries_nonneg(s.open.update(i, None))) by {
                assert(forall|j: int|
                    0 <= j < s.open.len() && j != i ==> s.open.update(i, None)[j] == s.open[j]);
            }
        },
        VaultOp::Refund { i } => {
            lemma_sum_update(s.open, i, None);
            lemma_entry_le_sum(s.open, i);
            assert(entries_nonneg(s.open.update(i, None))) by {
                assert(forall|j: int|
                    0 <= j < s.open.len() && j != i ==> s.open.update(i, None)[j] == s.open[j]);
            }
        },
        VaultOp::EmergencyRefund { i } => {
            lemma_sum_update(s.open, i, None);
            lemma_entry_le_sum(s.open, i);
            assert(entries_nonneg(s.open.update(i, None))) by {
                assert(forall|j: int|
                    0 <= j < s.open.len() && j != i ==> s.open.update(i, None)[j] == s.open[j]);
            }
        },
    }
}

/// The solvency invariant: for every sequence of allowed place, update,
/// settle and refund operations run on balanced books, the books stay
/// balanced and the vault's exposure never exceeds its assets, after every
/// operation.
pub proof fn lemma_solvency_invariant(s: VaultBooks, ops: Seq<VaultOp>)
    requires
        backed(s),
        ops_allowed(s, ops),
    ensures
        backed(vault_run(s, ops)),
        vault_run(s, ops).exposure <= vault_run(s, ops).assets,
    decreases ops.len(),
{
    lemma_sums_nonneg(s.open);
    if ops.len() > 0 {
        lemma_vault_step_preserves_backing(s, ops[0]);
        lemma_solvency_invariant(vault_step(s, ops[0]), ops.drop_first());
    }
}

} // verus!

verus! {

/// The share-math round trip: depositing into a consistent vault and
/// immediately burning every minted share returns at most the deposit, and
/// on a fresh vault (no shares outstanding) exactly the deposit. Rounding
/// in the pro-rata formulas only ever truncates toward zero, so the
/// difference is pure truncation loss, never a gain.
pub proof fn lemma_share_round_trip(assets: int, shares: int, deposit: int)
    requires
        0 <= assets,
        0 <= shares,
        0 <= deposit,
        shares == 0 ==> assets == 0,
    ensures
        ({
            let minted = spec_shares_to_mint(deposit, assets, shares);
            let withdrawn = spec_assets_to_withdraw(minted, assets + deposit, shares + minted);
            &&& withdrawn <= deposit
            &&& shares == 0 ==> withdrawn == deposit
        }),
{
    let minted = spec_shares_to_mint(deposit, assets, shares);
    if shares == 0 {
        if deposit == 0 {
        } else {
            vstd::arithmetic::div_mod::lemma_div_multiples_vanish(deposit, deposit);
        }
    } else if assets == 0 {
        if deposit == 0 {
            vstd::arithmetic::div_mod::lemma_div_pos_is_pos(0, shares);
        } else {
            lemma_mul_inequality(deposit, shares + deposit, deposit);
            lemma_div_is_ordered(
                deposit * deposit,
                deposit * (shares + deposit),
                shares + deposit,
            );
            vstd::arithmetic::div_mod::lemma_div_multiples_vanish(deposit, shares + deposit);
            vstd::arithmetic::mul::lemma_mul_nonnegative(deposit, deposit);
        }
    } else {
        vstd::arithmetic::mul::lemma_mul_nonnegative(deposit, shares);
        vstd::arithmetic::div_mod::lemma_div_pos_is_pos(deposit * shares, assets);
        // minted * assets <= deposit * shares: the mint rounds down.
        vstd::arithmetic::div_mod::lemma_remainder_lower(deposit * shares, assets);
        assert(minted * assets <= deposit * shares);
        // Hence minted * (assets + deposit) <= deposit * (shares + minted).
        lemma_mul_is_distributive_add(minted, assets, deposit);
        lemma_mul_is_distributive_add(deposit, shares, minted);
        assert(minted * (assets + deposit) <= deposit * (shares + minted));
        // And the withdrawal, rounding down again, stays at or below the
        // deposit.
        vstd::arithmetic::mul::lemma_mul_nonnegative(minted, assets + deposit);
        lemma_div_is_ordered(
            minted * (assets + deposit),
            deposit * (shares + minted),
            shares + minted,
        );
        vstd::arithmetic::div_mod::lemma_div_multiples_vanish(deposit, shares + minted);
    }
}

/// Re-running a forced settlement batch over entries that are all skipped
/// (already settled, or belonging to a different market than the one in
/// scope) leaves the vault exactly as it was: nothing is transferred
/// twice. Together with `batch_settle`'s guarantee that skipped entries
/// are returned unchanged with no outcome, this is what makes
/// at-least-once retries of the batch safe.
pub proof fn lemma_batch_settle_idempotent(
    v0: LiquidityVault,
    bets: Seq<UserBet>,
    keys: Seq<u64>,
    symbol: u64,
    mercy: int,
    actual: int,
    n: int,
)
    requires
        0 <= n <= bets.len(),
        forall|i: int| 0 <= i < n ==> spec_batch_entry_skipped(bets[i], symbol),
    ensures
        spec_batch_vault_upto(v0, bets, keys, symbol, mercy, actual, n) == v0,
    decreases n,
{
    if n > 0 {
        lemma_batch_settle_idempotent(v0, bets, keys, symbol, mercy, actual, n - 1);
    }
}

} // verus!
