//! The clock that the loop's instants are read from.
//!
//! An instant of the loop is the number of nanoseconds since the clock was
//! started, as far as 64 bits go.

use instant::{Duration, Instant};
use vstd::prelude::*;

verus! {

#[verifier::external_type_specification]
#[verifier::external_body]
pub struct ExInstant(instant::Instant);

/// A clock started at some moment, to count from.
pub struct LoopClock {
    origin: Instant,
}

/// `nanos` as an instant of the loop: itself, or the largest instant where it
/// lies beyond.
pub open spec fn as_instant(nanos: u128) -> u64 {
    if nanos > u64::MAX {
        u64::MAX
    } else {
        nanos as u64
    }
}

/// Reads the monotonic clock with `instant::Instant::now`. Trusted, and
/// nothing is claimed of what it returns: that is the time.
#[verifier::external_body]
fn read_instant() -> (instant: Instant) {
    Instant::now()
}

/// The time gone by since `origin`, from `Instant::elapsed`. Trusted, and
/// nothing is claimed of what it returns: that is the time.
#[verifier::external_body]
fn elapsed_since(origin: &Instant) -> (elapsed: Duration) {
    origin.elapsed()
}

/// The whole nanoseconds in a reading of the clock, from
/// `Duration::as_nanos`. Trusted, and nothing is claimed of what it returns:
/// the reading shows nothing of itself here.
#[verifier::external_body]
fn nanos_of(duration: &Duration) -> (nanos: u128) {
    duration.as_nanos()
}

/// Turns a count of nanoseconds into an instant of the loop.
pub fn to_instant(nanos: u128) -> (instant: u64)
    ensures
        instant == as_instant(nanos),
{
    if nanos > u64::MAX as u128 {
        u64::MAX
    } else {
        nanos as u64
    }
}

impl LoopClock {
    /// Starts a clock now.
    pub fn start() -> (clock: LoopClock) {
        LoopClock { origin: read_instant() }
    }

    /// The instant that it is now. Whatever the clock says is taken.
    pub fn now(&self) -> (instant: u64) {
        let elapsed = elapsed_since(&self.origin);
        to_instant(nanos_of(&elapsed))
    }
}

} // verus!
