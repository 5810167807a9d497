//! Readings of the monotonic clock. Nothing is claimed of their values: the logic that uses
//! them takes elapsed times as arguments and holds for every value.

use vstd::prelude::*;
use std::time::Instant;

verus! {

/// std's `Instant`, carried through as an opaque value.
#[verifier::external_type_specification]
#[verifier::external_body]
pub struct ExInstant(Instant);

/// std's `Instant::now`.
#[verifier::external_body]
pub fn instant_now() -> Instant {
    Instant::now()
}

/// std's `Instant::saturating_duration_since`, in whole nanoseconds: the time from
/// `earlier` to `later`, zero when `later` is not after `earlier`. Nothing is claimed of
/// its value but that it fits a `Duration`.
#[verifier::external_body]
fn duration_nanos_since(earlier: &Instant, later: &Instant) -> (r: u128)
    ensures
        r <= max_duration_nanos(),
{
    later.saturating_duration_since(*earlier).as_nanos()
}

/// The nanoseconds from `earlier` to `later` (zero when `later` is not after `earlier`),
/// held at `u64::MAX`, some 584 years, where the time is longer.
pub fn nanos_between(earlier: &Instant, later: &Instant) -> u64 {
    let n = duration_nanos_since(earlier, later);
    if n > u64::MAX as u128 {
        u64::MAX
    } else {
        n as u64
    }
}

/// The largest number of nanoseconds that a `Duration` holds: `u64::MAX` seconds and
/// 999 999 999 nanoseconds.
pub open spec fn max_duration_nanos() -> nat {
    u64::MAX as nat * 1_000_000_000 + 999_999_999
}

/// std's `SystemTime::now`, as the nanoseconds since the Unix epoch (zero where the clock
/// is before the epoch). Nothing is claimed of its value but that it fits a `Duration`.
#[verifier::external_body]
pub fn unix_nanos_now() -> (r: u128)
    ensures
        r <= max_duration_nanos(),
{
    std::time::SystemTime::now().duration_since(std::time::UNIX_EPOCH).unwrap_or_default().as_nanos()
}

} // verus!
