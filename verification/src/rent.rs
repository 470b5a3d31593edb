//! Rent arithmetic: how many days a hold is charged for, and what it costs.

use vstd::prelude::*;

verus! {

/// Length of one charged day, in seconds.
pub const SECONDS_PER_DAY: i64 = 86400;

/// Rent charged per started day of custody, fixed for every lock.
pub const RENT_PER_DAY: u64 = 10_000_000;

/// Seconds between the deposit and the release request.
pub open spec fn elapsed(lock_time: int, current_time: int) -> int {
    current_time - lock_time
}

/// Days charged for a hold of `elapsed` seconds: the whole days that have
/// passed and one more, so that every started day counts and at least one
/// day is always charged. A release before the deposit time, which a lock
/// with a negative duration allows, is charged that one day.
pub open spec fn days_held(elapsed: int) -> int {
    if elapsed < 0 {
        1
    } else {
        elapsed / 86400 + 1
    }
}

/// Rent owed for a hold that began at `lock_time` and is released at
/// `current_time`, at `rent_per_day` per charged day.
pub open spec fn rent_owed(lock_time: int, current_time: int, rent_per_day: int) -> int {
    days_held(elapsed(lock_time, current_time)) * rent_per_day
}

/// Whether the rent can be charged: the amount fits the ledger's unsigned
/// 64-bit balance.
pub open spec fn rent_chargeable(lock_time: int, current_time: int, rent_per_day: int) -> bool {
    rent_owed(lock_time, current_time, rent_per_day) <= u64::MAX
}

/// Computes the rent owed on release, or `None` where it does not fit.
pub fn compute_rent(lock_time: i64, current_time: i64, rent_per_day: u64) -> (r: Option<u64>)
    ensures
        r.is_some() == rent_chargeable(lock_time as int, current_time as int, rent_per_day as int),
        r.is_some() ==> r.unwrap() == rent_owed(
            lock_time as int,
            current_time as int,
            rent_per_day as int,
        ),
{
    let span: i128 = current_time as i128 - lock_time as i128;
    let days: i128 = if span < 0 {
        1
    } else {
        span / 86400 + 1
    };
    let days64: u64 = days as u64;
    days64.checked_mul(rent_per_day)
}

/// A hold released less than a day after the deposit is charged one day's
/// rent; one released more than one and less than two days after it is
/// charged two days' rent.
pub proof fn lemma_rent_rounding(lock_time: int, current_time: int, rent_per_day: int)
    ensures
        0 < elapsed(lock_time, current_time) < 86400 ==> rent_owed(
            lock_time,
            current_time,
            rent_per_day,
        ) == rent_per_day,
        86400 < elapsed(lock_time, current_time) < 172800 ==> rent_owed(
            lock_time,
            current_time,
            rent_per_day,
        ) == 2 * rent_per_day,
{
}

/// A hold released exactly on a day boundary is charged for the day that
/// begins there: one day at zero seconds, two at one full day.
pub proof fn lemma_rent_on_boundary(lock_time: int, current_time: int, rent_per_day: int)
    ensures
        elapsed(lock_time, current_time) == 0 ==> rent_owed(lock_time, current_time, rent_per_day)
            == rent_per_day,
        elapsed(lock_time, current_time) == 86400 ==> rent_owed(
            lock_time,
            current_time,
            rent_per_day,
        ) == 2 * rent_per_day,
{
    if elapsed(lock_time, current_time) == 0 {
        assert(days_held(0) == 1);
    }
    if elapsed(lock_time, current_time) == 86400 {
        assert(days_held(86400) == 2);
    }
}

/// Every release is charged at least one day's rent, whenever it is made.
pub proof fn lemma_minimum_rent(lock_time: int, current_time: int, rent_per_day: int)
    requires
        0 <= rent_per_day,
    ensures
        days_held(elapsed(lock_time, current_time)) >= 1,
        rent_owed(lock_time, current_time, rent_per_day) >= rent_per_day,
{
    let days = days_held(elapsed(lock_time, current_time));
    assert(days >= 1);
    assert(days * rent_per_day >= rent_per_day) by (nonlinear_arith)
        requires
            days >= 1,
            rent_per_day >= 0,
    ;
}

/// A release before the deposit time is charged exactly one day's rent.
pub proof fn lemma_rent_before_deposit(lock_time: int, current_time: int, rent_per_day: int)
    requires
        current_time < lock_time,
    ensures
        rent_owed(lock_time, current_time, rent_per_day) == rent_per_day,
{
    assert(days_held(elapsed(lock_time, current_time)) == 1);
}

} // verus!
