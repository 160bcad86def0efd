//! The rent accrued by an asset while it sits in custody.

use vstd::prelude::*;

verus! {

/// Seconds of custody that accrue one whole fee unit.
pub const SECONDS_PER_DAY: u64 = 86_400;

/// One whole fee unit, counted in its smallest denomination.
pub const RENT_PER_DAY: u64 = 1_000_000_000;

/// The rent owed for `lock_duration` seconds of custody: one whole fee unit
/// per day, prorated by the second and rounded down. A duration that is zero
/// or negative owes nothing.
pub open spec fn rent_due(lock_duration: int) -> nat {
    if lock_duration <= 0 {
        0
    } else {
        (lock_duration * RENT_PER_DAY / (SECONDS_PER_DAY as int)) as nat
    }
}

/// `rent_due`, held at the largest value that the fee ledger can record.
pub open spec fn rent_due_capped(lock_duration: int) -> nat {
    if rent_due(lock_duration) > u64::MAX {
        u64::MAX as nat
    } else {
        rent_due(lock_duration)
    }
}

/// Rent never decreases as custody goes on.
pub proof fn lemma_rent_monotonic(shorter: int, longer: int)
    requires
        shorter <= longer,
    ensures
        rent_due(shorter) <= rent_due(longer),
{
    if shorter > 0 {
        assert(shorter * RENT_PER_DAY <= longer * RENT_PER_DAY);
        vstd::arithmetic::div_mod::lemma_div_is_ordered(
            shorter * RENT_PER_DAY,
            longer * RENT_PER_DAY,
            SECONDS_PER_DAY as int,
        );
    }
}

/// A whole number of days owes that many whole fee units, and half a day owes
/// half a unit.
pub proof fn lemma_rent_whole_days(days: nat)
    ensures
        rent_due(days * SECONDS_PER_DAY) == days * RENT_PER_DAY,
        rent_due(0) == 0,
        rent_due(86_400) == 1_000_000_000,
        rent_due(43_200) == 500_000_000,
{
    if days > 0 {
        assert(days * 86_400 * 1_000_000_000 == (days * 1_000_000_000) * 86_400);
        vstd::arithmetic::div_mod::lemma_div_multiples_vanish(
            (days * 1_000_000_000) as int,
            86_400,
        );
    }
}

/// Custody that is positive owes at least two of the smallest denomination a
/// second, so rent that fits the fee ledger bounds the duration.
pub proof fn lemma_rent_bounds_duration(lock_duration: int)
    requires
        lock_duration > 0,
    ensures
        rent_due(lock_duration) >= 2 * lock_duration,
{
    assert(lock_duration * RENT_PER_DAY >= (2 * lock_duration) * 86_400);
    vstd::arithmetic::div_mod::lemma_div_is_ordered(
        (2 * lock_duration) * 86_400,
        lock_duration * RENT_PER_DAY,
        86_400,
    );
    vstd::arithmetic::div_mod::lemma_div_multiples_vanish(2 * lock_duration, 86_400);
}

/// Computes the rent for custody from `lock_time` to `now`, exactly, whatever
/// the two times are.
pub fn rent_between(lock_time: i64, now: i64) -> (rent: u128)
    ensures
        rent == rent_due(now - lock_time),
{
    if now <= lock_time {
        return 0;
    }
    let seconds: u128 = (now as i128 - lock_time as i128) as u128;
    assert(seconds * 1_000_000_000 <= u128::MAX) by {
        assert(seconds <= 0xffff_ffff_ffff_ffff);
    }
    seconds * 1_000_000_000 / 86_400
}

/// Computes the rent for `lock_duration` seconds of custody: `rent_due`,
/// or `u64::MAX` where that is larger.
pub fn calculate_rent(lock_duration: i64) -> (rent: u64)
    ensures
        rent == rent_due_capped(lock_duration as int),
        rent_due(lock_duration as int) <= u64::MAX ==> rent == rent_due(lock_duration as int),
{
    if lock_duration <= 0 {
        return 0;
    }
    let seconds: u128 = lock_duration as u128;
    assert(seconds * 1_000_000_000 <= u128::MAX) by {
        assert(seconds <= 0x7fff_ffff_ffff_ffff);
    }
    let scaled: u128 = seconds * 1_000_000_000;
    let whole: u128 = scaled / 86_400;
    if whole > u64::MAX as u128 {
        u64::MAX
    } else {
        whole as u64
    }
}

} // verus!
