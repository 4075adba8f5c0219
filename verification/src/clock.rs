//! The monotonic clock, for the time that passes between two collected
//! messages.

use vstd::prelude::*;

use std::time::{Duration, Instant};

verus! {

/// `std::time::Instant`, a point of the monotonic clock; opaque.
#[verifier::external_type_specification]
#[verifier::external_body]
pub struct ExInstant(Instant);

/// The present point of the monotonic clock.
///
/// Trusted: `std::time::Instant::now`. Nothing is claimed of the point it
/// returns.
#[verifier::external_body]
pub(crate) fn instant_now() -> Instant {
    Instant::now()
}

/// The duration that `std::time::Instant::saturating_duration_since` gives
/// for `later` and `earlier`: a function of the two points alone.
pub uninterp spec fn time_between(later: Instant, earlier: Instant) -> Duration;

/// The whole nanoseconds that `std::time::Duration::as_nanos` gives for `d`:
/// a function of the duration alone.
pub uninterp spec fn whole_nanos(d: Duration) -> nat;

/// `x`, or `u64::MAX` where `x` is larger.
pub open spec fn saturated_u64(x: nat) -> u64 {
    if x > u64::MAX {
        u64::MAX
    } else {
        x as u64
    }
}

/// The whole nanoseconds, capped at `u64::MAX`, from `last` to `now`; none
/// when there is no `last`.
pub open spec fn nanos_since(now: Instant, last: Option<Instant>) -> Option<u64> {
    match last {
        Some(l) => Some(saturated_u64(whole_nanos(time_between(now, l)))),
        None => None,
    }
}

/// The time from `earlier` to `later`, or zero if `later` is not after it.
///
/// Trusted: `std::time::Instant::saturating_duration_since`. Claimed: the
/// duration depends on the two points alone (`time_between`). That it is zero
/// where `later` comes first is not stated, as the points are opaque here.
#[verifier::external_body]
fn duration_between(later: Instant, earlier: Instant) -> (d: Duration)
    ensures
        d == time_between(later, earlier),
{
    later.saturating_duration_since(earlier)
}

/// The whole nanoseconds of `d`.
///
/// Trusted: `std::time::Duration::as_nanos`. Claimed: the number depends on
/// the duration alone (`whole_nanos`); the duration is opaque here, so what
/// the number is for given seconds and nanoseconds is not stated.
#[verifier::external_body]
fn duration_nanos(d: Duration) -> (n: u128)
    ensures
        n == whole_nanos(d),
{
    d.as_nanos()
}

/// The nanoseconds from `earlier` to `later`, zero if `later` is not after
/// it, and `u64::MAX` if there are more.
pub(crate) fn nanos_between(later: Instant, earlier: Instant) -> (n: u64)
    ensures
        n == saturated_u64(whole_nanos(time_between(later, earlier))),
{
    let nanos = duration_nanos(duration_between(later, earlier));
    if nanos > u64::MAX as u128 {
        u64::MAX
    } else {
        nanos as u64
    }
}

} // verus!
