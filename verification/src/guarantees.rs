//! What holds of every lock, unlock and withdrawal.

use vstd::prelude::*;
use crate::rent::lemma_minimum_rent;
use crate::store::LockAccount;
use crate::vault::{
    lock_effect, lock_error, lock_record, lock_result, record_rent, unlock_effect, unlock_error,
    unlock_rent, unlock_result, withdraw_effect, withdraw_result, LockNFT, Transfer, UnlockNFT,
    VaultError, VaultView, WithdrawRent,
};

verus! {

/// Mutual exclusion: a lock requested for a pair that is already locked is
/// refused and changes nothing; with a ledger in place the refusal is
/// `RecordAlreadyExists`, whatever else the request holds.
pub proof fn lemma_locked_pair_refuses_lock(
    pre: VaultView,
    ctx: LockNFT,
    lock_duration: i64,
    now: i64,
)
    requires
        pre.locked(ctx.user, ctx.mint),
    ensures
        lock_result(pre, ctx, lock_duration, now) is Err,
        lock_effect(pre, ctx, lock_duration, now) == pre,
        pre.ledger is Some ==> lock_result(pre, ctx, lock_duration, now) == Err::<
            crate::vault::NFTLocked,
            VaultError,
        >(VaultError::RecordAlreadyExists),
{
}

/// Mutual exclusion across two requests: after a lock that succeeded, any
/// further lock for the same depositor and asset is refused with
/// `RecordAlreadyExists`, and the first record stays as it was.
pub proof fn lemma_second_lock_refused(
    pre: VaultView,
    first: LockNFT,
    first_duration: i64,
    first_now: i64,
    second: LockNFT,
    second_duration: i64,
    second_now: i64,
)
    requires
        lock_error(pre, first, first_duration, first_now) is None,
        second.user@ == first.user@,
        second.mint@ == first.mint@,
    ensures
        ({
            let mid = lock_effect(pre, first, first_duration, first_now);
            &&& lock_result(mid, second, second_duration, second_now) == Err::<
                crate::vault::NFTLocked,
                VaultError,
            >(VaultError::RecordAlreadyExists)
            &&& lock_effect(mid, second, second_duration, second_now) == mid
            &&& mid.locks[(first.user@, first.mint@)] == lock_record(
                first,
                first_duration,
                first_now,
            )
        }),
{
}

/// Release gate: an unlock succeeds only for a pair that is locked, and
/// only at or after the unlock time of its record.
pub proof fn lemma_unlock_only_when_due(pre: VaultView, ctx: UnlockNFT, current_time: i64)
    requires
        unlock_result(pre, ctx, current_time) is Ok,
    ensures
        pre.locked(ctx.user, ctx.mint),
        current_time >= pre.locks[(ctx.user@, ctx.mint@)].unlock_time,
{
}

/// Release gate: before the unlock time of its record, with a ledger in
/// place, an unlock is refused with `NFTStillLocked` and changes nothing,
/// however the transfers would have gone; so it is one second before the
/// unlock time.
pub proof fn lemma_release_gate(pre: VaultView, ctx: UnlockNFT, current_time: i64)
    requires
        pre.ledger is Some,
        pre.locked(ctx.user, ctx.mint),
    ensures
        current_time < pre.locks[(ctx.user@, ctx.mint@)].unlock_time ==> unlock_result(
            pre,
            ctx,
            current_time,
        ) == Err::<crate::vault::NFTUnlocked, VaultError>(VaultError::NFTStillLocked)
            && unlock_effect(pre, ctx, current_time) == pre,
        current_time == pre.locks[(ctx.user@, ctx.mint@)].unlock_time - 1 ==> unlock_result(
            pre,
            ctx,
            current_time,
        ) == Err::<crate::vault::NFTUnlocked, VaultError>(VaultError::NFTStillLocked)
            && unlock_effect(pre, ctx, current_time) == pre,
{
}

/// An unlock that is refused, for whatever reason, changes nothing.
pub proof fn lemma_refused_unlock_changes_nothing(
    pre: VaultView,
    ctx: UnlockNFT,
    current_time: i64,
)
    requires
        unlock_result(pre, ctx, current_time) is Err,
    ensures
        unlock_effect(pre, ctx, current_time) == pre,
{
}

/// Minimum rent: releasing a record is charged at least one day of the
/// record's rent, at whatever time the release is made; so is every release
/// at or after the unlock time, before the deposit time or after it.
pub proof fn lemma_release_charges_a_day(record: LockAccount, current_time: i64)
    ensures
        record_rent(record, current_time) >= record.rent_per_day,
        current_time >= record.unlock_time ==> record_rent(record, current_time)
            >= record.rent_per_day,
{
    lemma_minimum_rent(
        record.lock_time as int,
        current_time as int,
        record.rent_per_day as int,
    );
}

/// Minimum rent: an unlock that succeeds pays at least one day of the
/// record's rent into the ledger, and the event reports what was paid.
pub proof fn lemma_unlock_pays_a_day(pre: VaultView, ctx: UnlockNFT, current_time: i64)
    requires
        unlock_result(pre, ctx, current_time) is Ok,
    ensures
        unlock_rent(pre, ctx, current_time) >= pre.locks[(ctx.user@, ctx.mint@)].rent_per_day,
        unlock_result(pre, ctx, current_time).unwrap().rent_paid == unlock_rent(
            pre,
            ctx,
            current_time,
        ),
        unlock_effect(pre, ctx, current_time).balance() == pre.balance() + unlock_rent(
            pre,
            ctx,
            current_time,
        ),
{
    lemma_release_charges_a_day(pre.locks[(ctx.user@, ctx.mint@)], current_time);
}

/// A lock is decided by the request alone once there is a ledger and the
/// pair is free: on any two such vaults it returns the same, and where it
/// succeeds it stores the same record, whatever either vault went through
/// before.
pub proof fn lemma_lock_ignores_history(
    one: VaultView,
    other: VaultView,
    ctx: LockNFT,
    lock_duration: i64,
    now: i64,
)
    requires
        one.ledger is Some,
        other.ledger is Some,
        !one.locked(ctx.user, ctx.mint),
        !other.locked(ctx.user, ctx.mint),
    ensures
        lock_result(one, ctx, lock_duration, now) == lock_result(other, ctx, lock_duration, now),
        lock_result(one, ctx, lock_duration, now) is Ok ==> lock_effect(
            one,
            ctx,
            lock_duration,
            now,
        ).locks[(ctx.user@, ctx.mint@)] == lock_record(ctx, lock_duration, now) && lock_effect(
            other,
            ctx,
            lock_duration,
            now,
        ).locks[(ctx.user@, ctx.mint@)] == lock_record(ctx, lock_duration, now),
{
}

/// Cleanup: after an unlock that succeeded the pair has no record and every
/// other record is untouched. A new lock for the pair is then decided as on
/// any vault with a ledger where the pair was never locked: it returns the
/// same there, and where it succeeds it stores the record of the new
/// request alone, with nothing of the earlier lock in it.
pub proof fn lemma_unlock_frees_pair(
    pre: VaultView,
    ctx: UnlockNFT,
    current_time: i64,
    never: VaultView,
    again: LockNFT,
    lock_duration: i64,
    now: i64,
)
    requires
        unlock_error(pre, ctx, current_time) is None,
        never.ledger is Some,
        !never.locked(ctx.user, ctx.mint),
        again.user@ == ctx.user@,
        again.mint@ == ctx.mint@,
    ensures
        ({
            let post = unlock_effect(pre, ctx, current_time);
            &&& !post.locked(ctx.user, ctx.mint)
            &&& post.locks == pre.locks.remove((ctx.user@, ctx.mint@))
            &&& lock_result(post, again, lock_duration, now) == lock_result(
                never,
                again,
                lock_duration,
                now,
            )
            &&& lock_error(post, again, lock_duration, now) != Some(
                VaultError::RecordAlreadyExists,
            )
            &&& (lock_result(post, again, lock_duration, now) is Ok ==> lock_effect(
                post,
                again,
                lock_duration,
                now,
            ).locks[(ctx.user@, ctx.mint@)] == lock_record(again, lock_duration, now))
            &&& (again.nft_transfer is Completed && i64::MIN <= now + lock_duration <= i64::MAX
                ==> lock_result(post, again, lock_duration, now) is Ok)
        }),
{
    lemma_lock_ignores_history(
        unlock_effect(pre, ctx, current_time),
        never,
        again,
        lock_duration,
        now,
    );
}

/// Authority gate: a withdrawal signed by anyone but the ledger's authority
/// is refused with `Unauthorized` and changes nothing, whatever the amount
/// and however the transfer would have gone.
pub proof fn lemma_authority_gate(pre: VaultView, ctx: WithdrawRent, amount: u64)
    requires
        pre.ledger is Some,
        ctx.authority@ != pre.ledger.unwrap().authority@,
    ensures
        withdraw_result(pre, ctx, amount) == Err::<crate::vault::RentWithdrawn, VaultError>(
            VaultError::Unauthorized,
        ),
        withdraw_effect(pre, ctx, amount) == pre,
        withdraw_effect(pre, ctx, amount).balance() == pre.balance(),
{
}

/// A withdrawal never takes more than the ledger holds: asking for more is
/// refused with `InsufficientFunds` and changes nothing.
pub proof fn lemma_no_overdraw(pre: VaultView, ctx: WithdrawRent, amount: u64)
    requires
        pre.ledger is Some,
        ctx.authority@ == pre.ledger.unwrap().authority@,
        amount > pre.balance(),
    ensures
        withdraw_result(pre, ctx, amount) == Err::<crate::vault::RentWithdrawn, VaultError>(
            VaultError::InsufficientFunds,
        ),
        withdraw_effect(pre, ctx, amount) == pre,
{
}

} // verus!
