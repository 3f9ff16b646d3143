//! Round-trip timing on the monotonic clock.

use vstd::prelude::*;
use std::time::Duration;
use std::time::Instant;
use crate::error::Error;

verus! {

#[verifier::external_type_specification]
#[verifier::external_body]
pub struct ExInstant(std::time::Instant);

/// A reading of the monotonic clock, taken when the request has been sent.
#[derive(Clone, Copy, Debug)]
pub struct Timestamp {
    at: Instant,
}

/// Calls `Instant::now`: the present reading of the monotonic clock. Nothing
/// is claimed of it.
#[verifier::external_body]
fn clock_now() -> Instant {
    Instant::now()
}

/// Calls `Instant::checked_duration_since`: the time from `earlier` to `later`,
/// or nothing where `earlier` is the later of the two. Nothing is claimed of
/// which it is, nor of the amount.
#[verifier::external_body]
fn clock_between(earlier: &Instant, later: &Instant) -> Option<Duration> {
    later.checked_duration_since(*earlier)
}

/// What a measurement comes to: the time that the clock gave, or `ClockError`
/// where it gave none.
pub open spec fn measured(reading: Option<Duration>) -> Result<Duration, Error> {
    match reading {
        Some(duration) => Ok(duration),
        None => Err(Error::ClockError),
    }
}

/// Turns what the clock gave into the result of a measurement. A missing
/// reading is reported, never replaced by a made-up duration.
pub fn measure(reading: Option<Duration>) -> (elapsed: Result<Duration, Error>)
    ensures
        elapsed == measured(reading),
{
    match reading {
        Some(duration) => Ok(duration),
        None => Err(Error::ClockError),
    }
}

/// Reads the clock at the start of a round trip.
pub fn start() -> Timestamp {
    Timestamp { at: clock_now() }
}

/// Time that has passed since `start`. The only failure is `ClockError`, when
/// the clock yields no duration between the two readings.
pub fn elapsed(start: &Timestamp) -> (elapsed: Result<Duration, Error>)
    ensures
        elapsed matches Err(error) ==> error == Error::ClockError,
{
    let now = clock_now();
    measure(clock_between(&start.at, &now))
}

} // verus!
