//! Histories of operations, and what the ledger holds after one.

use vstd::prelude::*;
use crate::vault::{
    initialize_effect, lock_effect, unlock_effect, unlock_rent, withdraw_effect, withdrawn,
    InitializeVault, LockNFT, UnlockNFT, VaultView, WithdrawRent,
};

verus! {

/// One request made to the vault, with everything the request depends on.
#[allow(inconsistent_fields)]
pub enum Operation {
    Initialize { ctx: InitializeVault },
    Lock { ctx: LockNFT, lock_duration: i64, now: i64 },
    Unlock { ctx: UnlockNFT, current_time: i64 },
    Withdraw { ctx: WithdrawRent, amount: u64 },
}

/// The vault after `op` was requested of the vault `pre`.
pub open spec fn apply(pre: VaultView, op: Operation) -> VaultView {
    match op {
        Operation::Initialize { ctx } => initialize_effect(pre, ctx),
        Operation::Lock { ctx, lock_duration, now } => lock_effect(pre, ctx, lock_duration, now),
        Operation::Unlock { ctx, current_time } => unlock_effect(pre, ctx, current_time),
        Operation::Withdraw { ctx, amount } => withdraw_effect(pre, ctx, amount),
    }
}

/// Rent that `op` pays into the ledger of `pre`: the rent of an unlock that
/// succeeds, nothing otherwise.
pub open spec fn paid_by(pre: VaultView, op: Operation) -> int {
    match op {
        Operation::Unlock { ctx, current_time } => unlock_rent(pre, ctx, current_time),
        _ => 0,
    }
}

/// Amount that `op` takes out of the ledger of `pre`: the amount of a
/// withdrawal that succeeds, nothing otherwise.
pub open spec fn withdrawn_by(pre: VaultView, op: Operation) -> int {
    match op {
        Operation::Withdraw { ctx, amount } => withdrawn(pre, ctx, amount),
        _ => 0,
    }
}

/// The vault after the operations `ops`, requested in order of `start`.
pub open spec fn run(start: VaultView, ops: Seq<Operation>) -> VaultView
    decreases ops.len(),
{
    if ops.len() == 0 {
        start
    } else {
        apply(run(start, ops.drop_last()), ops.last())
    }
}

/// Sum of the rent paid by the unlocks among `ops` that succeeded.
pub open spec fn total_paid(start: VaultView, ops: Seq<Operation>) -> int
    decreases ops.len(),
{
    if ops.len() == 0 {
        0
    } else {
        total_paid(start, ops.drop_last()) + paid_by(run(start, ops.drop_last()), ops.last())
    }
}

/// Sum of the amounts taken by the withdrawals among `ops` that succeeded.
pub open spec fn total_withdrawn(start: VaultView, ops: Seq<Operation>) -> int
    decreases ops.len(),
{
    if ops.len() == 0 {
        0
    } else {
        total_withdrawn(start, ops.drop_last()) + withdrawn_by(
            run(start, ops.drop_last()),
            ops.last(),
        )
    }
}

/// One operation changes the balance by the rent it pays in less the amount
/// it takes out, and both are never negative.
pub proof fn lemma_step_balance(pre: VaultView, op: Operation)
    ensures
        apply(pre, op).balance() == pre.balance() + paid_by(pre, op) - withdrawn_by(pre, op),
        paid_by(pre, op) >= 0,
        withdrawn_by(pre, op) >= 0,
        apply(pre, op).balance() >= 0,
{
    match op {
        Operation::Unlock { ctx, current_time } => {
            if crate::vault::unlock_error(pre, ctx, current_time) is None {
                let record = pre.locks[(ctx.user@, ctx.mint@)];
                let days = crate::rent::days_held(
                    crate::rent::elapsed(record.lock_time as int, current_time as int),
                );
                let rate = record.rent_per_day as int;
                assert(days * rate >= 0) by (nonlinear_arith)
                    requires
                        days >= 0,
                        rate >= 0,
                ;
            }
        },
        _ => {},
    }
}

/// Conservation: after any history of operations the ledger holds what it
/// held at the start, plus the rent paid by the unlocks that succeeded,
/// less the amounts taken by the withdrawals that succeeded; and it is
/// never negative.
pub proof fn lemma_conservation(start: VaultView, ops: Seq<Operation>)
    ensures
        run(start, ops).balance() == start.balance() + total_paid(start, ops) - total_withdrawn(
            start,
            ops,
        ),
        run(start, ops).balance() >= 0,
        total_paid(start, ops) >= 0,
        total_withdrawn(start, ops) >= 0,
    decreases ops.len(),
{
    if ops.len() > 0 {
        lemma_conservation(start, ops.drop_last());
        lemma_step_balance(run(start, ops.drop_last()), ops.last());
    }
}

/// Conservation from the beginning: a vault that starts without a ledger
/// holds, after any history, exactly the rent paid less the rent withdrawn.
pub proof fn lemma_conservation_from_empty(ops: Seq<Operation>)
    ensures
        run(VaultView::empty(), ops).balance() == total_paid(VaultView::empty(), ops)
            - total_withdrawn(VaultView::empty(), ops),
        run(VaultView::empty(), ops).balance() >= 0,
{
    lemma_conservation(VaultView::empty(), ops);
}

/// Only unlocks and withdrawals move the balance: an initialization or a
/// lock leaves it as it was.
pub proof fn lemma_balance_moves_only_by_rent(pre: VaultView, op: Operation)
    requires
        op is Initialize || op is Lock,
    ensures
        apply(pre, op).balance() == pre.balance(),
{
}

} // verus!
