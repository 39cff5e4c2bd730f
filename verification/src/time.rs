//! Lengths of time. `std::time::Duration` is opaque to the verifier, so this
//! module names its length in nanoseconds and records what the standard
//! library documents of the three functions the crate calls on it. All
//! arithmetic on delays is then done, and proved, on integers.

use std::time::Duration;
use vstd::prelude::*;

verus! {

/// Nanoseconds in one second.
pub const NANOS_PER_SEC: u128 = 1_000_000_000;

/// Nanoseconds in one millisecond.
pub const NANOS_PER_MILLI: u128 = 1_000_000;

/// Length in nanoseconds of the longest `Duration`: `u64::MAX` seconds and
/// 999,999,999 nanoseconds.
pub const MAX_DURATION_NANOS: u128 = 18_446_744_073_709_551_615_999_999_999;

/// The total number of nanoseconds a `Duration` spans: the value that
/// `Duration::as_nanos` returns for it.
pub uninterp spec fn duration_nanos(d: Duration) -> nat;

/// Trusted: `Duration::as_nanos` returns the total number of nanoseconds
/// contained in the duration.
pub assume_specification[ Duration::as_nanos ](d: &Duration) -> (nanos: u128)
    ensures
        nanos == duration_nanos(*d),
;

/// Trusted: `Duration::from_millis` builds the duration that spans the given
/// number of milliseconds.
pub assume_specification[ Duration::from_millis ](millis: u64) -> (d: Duration)
    ensures
        duration_nanos(d) == millis * 1_000_000,
;

/// Trusted: `Duration::new` builds the duration that spans `secs` whole
/// seconds and `nanos` further nanoseconds. With a billion nanoseconds or
/// more the standard library carries into the seconds and may panic, so
/// those are left out.
pub assume_specification[ Duration::new ](secs: u64, nanos: u32) -> (d: Duration)
    requires
        nanos < 1_000_000_000,
    ensures
        duration_nanos(d) == secs * 1_000_000_000 + nanos,
;

/// The duration that spans exactly `nanos` nanoseconds, if there is one.
pub fn duration_from_nanos(nanos: u128) -> (d: Option<Duration>)
    ensures
        d is Some <==> nanos <= MAX_DURATION_NANOS,
        d matches Some(v) ==> duration_nanos(v) == nanos,
{
    if nanos > MAX_DURATION_NANOS {
        None
    } else {
        let secs: u128 = nanos / NANOS_PER_SEC;
        let rest: u128 = nanos % NANOS_PER_SEC;
        Some(Duration::new(secs as u64, rest as u32))
    }
}

/// The duration that spans `nanos` nanoseconds, or the longest duration
/// there is where `nanos` is beyond it.
pub fn duration_from_nanos_saturating(nanos: u128) -> (d: Duration)
    ensures
        duration_nanos(d) == if nanos <= MAX_DURATION_NANOS {
            nanos
        } else {
            MAX_DURATION_NANOS
        },
{
    match duration_from_nanos(nanos) {
        Some(d) => d,
        None => Duration::new(u64::MAX, 999_999_999),
    }
}

/// Whole milliseconds in `nanos` nanoseconds, capped at `u64::MAX`.
pub open spec fn whole_millis(nanos: nat) -> nat {
    if nanos / 1_000_000 <= u64::MAX {
        nanos / 1_000_000
    } else {
        u64::MAX as nat
    }
}

/// Whole milliseconds in `nanos` nanoseconds, capped at `u64::MAX`.
pub fn millis_saturating(nanos: u128) -> (millis: u64)
    ensures
        millis == whole_millis(nanos as nat),
{
    let whole: u128 = nanos / NANOS_PER_MILLI;
    if whole > u64::MAX as u128 {
        u64::MAX
    } else {
        whole as u64
    }
}

} // verus!
