use std::time::Duration;
use vstd::prelude::*;

verus! {

/// A point in time as the platform's clock gives it. Opaque here:
/// the engine only ever measures the distance between two of them.
#[verifier::external_type_specification]
#[verifier::external_body]
pub struct ExInstant(instant::Instant);

/// The clock that stamps the start of every animation: time in nanoseconds
/// since the clock was made.
pub struct Clock {
    origin: instant::Instant,
}

/// Calls `instant::Instant::now`. Nothing is claimed of the result: it is
/// whatever the platform's clock reads.
#[verifier::external_body]
fn instant_now() -> (now: instant::Instant) {
    instant::Instant::now()
}

/// Calls `Instant::saturating_duration_since` on `later`: the time from
/// `earlier` to `later`, or none at all where `earlier` is the later of the
/// two. Nothing is claimed of the result.
#[verifier::external_body]
fn instant_since(later: &instant::Instant, earlier: &instant::Instant) -> (passed: Duration) {
    later.saturating_duration_since(*earlier)
}

/// Calls `Duration::as_nanos`. Nothing is claimed of the result.
#[verifier::external_body]
fn duration_nanos(duration: &Duration) -> (nanos: u128) {
    duration.as_nanos()
}

/// The nanoseconds `nanos` as a time stamp: itself, or the largest stamp
/// where it is too large for one.
pub open spec fn stamp_of(nanos: u128) -> u64 {
    if nanos > u64::MAX {
        u64::MAX
    } else {
        nanos as u64
    }
}

/// Turns a count of nanoseconds into a time stamp, saturating.
pub fn stamp(nanos: u128) -> (t: u64)
    ensures
        t == stamp_of(nanos),
{
    if nanos > u64::MAX as u128 {
        u64::MAX
    } else {
        nanos as u64
    }
}

impl Clock {
    /// Starts a clock at the present moment.
    pub fn start() -> (clock: Clock) {
        Clock { origin: instant_now() }
    }

    /// The time stamp of the present moment.
    pub fn now(&self) -> (t: u64) {
        let present = instant_now();
        let passed = instant_since(&present, &self.origin);
        stamp(duration_nanos(&passed))
    }
}

} // verus!
