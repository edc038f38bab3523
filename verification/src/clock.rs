//! The wall clock, read as nanoseconds since the Unix epoch.

use std::time::{Duration, SystemTime, SystemTimeError, UNIX_EPOCH};
use vstd::prelude::*;

verus! {

/// `std::time::SystemTime`, a reading of the system clock.
#[verifier::external_type_specification]
#[verifier::external_body]
pub struct ExSystemTime(SystemTime);

/// `std::time::SystemTimeError`, which says that one instant lies before another.
#[verifier::external_type_specification]
#[verifier::external_body]
pub struct ExSystemTimeError(SystemTimeError);

/// `SystemTime::now`: the system clock's current reading. Nothing is claimed of it.
#[verifier::external_body]
fn system_time_now() -> SystemTime {
    SystemTime::now()
}

/// `SystemTime::duration_since`, measured from `UNIX_EPOCH`: the time from the epoch
/// to `instant`, or an error where `instant` lies before the epoch. Nothing is
/// claimed of which of the two comes back.
#[verifier::external_body]
fn elapsed_since_epoch(instant: &SystemTime) -> Result<Duration, SystemTimeError> {
    instant.duration_since(UNIX_EPOCH)
}

/// `Duration::as_nanos`: the whole duration in nanoseconds. Nothing is claimed of the
/// number.
#[verifier::external_body]
fn duration_as_nanos(duration: &Duration) -> u128 {
    duration.as_nanos()
}

/// Returns the system clock's reading in nanoseconds since the Unix epoch.
///
/// A clock that stands before the epoch reads as the epoch itself, zero. The reading
/// follows the wall clock and may go backwards when the clock is set.
pub fn current_time_in_nanoseconds() -> u128 {
    let instant = system_time_now();
    match elapsed_since_epoch(&instant) {
        Ok(elapsed) => duration_as_nanos(&elapsed),
        Err(_) => 0,
    }
}

} // verus!
