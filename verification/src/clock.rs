//! The system clock, as far as this library reads it.

use std::time::Duration;
use std::time::SystemTime;
use std::time::SystemTimeError;
use vstd::prelude::*;

verus! {

#[verifier::external_type_specification]
#[verifier::external_body]
pub struct ExSystemTime(SystemTime);

#[verifier::external_type_specification]
#[verifier::external_body]
pub struct ExSystemTimeError(SystemTimeError);

/// `SystemTime::now` reads the clock: nothing is promised of the instant
/// that it returns.
pub assume_specification[ SystemTime::now ]() -> (t: SystemTime)
;

/// `SystemTime::duration_since` returns the time from `earlier` to `t`, or an
/// error when `earlier` is the later of the two: nothing is promised of which.
pub assume_specification[ SystemTime::duration_since ](t: &SystemTime, earlier: SystemTime) -> (r:
    Result<Duration, SystemTimeError>)
;

/// `Duration::as_secs` returns the whole seconds of a duration.
pub assume_specification[ Duration::as_secs ](d: &Duration) -> (s: u64)
;

/// `std::time::UNIX_EPOCH`, the instant from which Unix time is counted:
/// nothing is stated of it.
#[verifier::external_body]
pub(crate) fn unix_epoch() -> SystemTime {
    std::time::UNIX_EPOCH
}

/// The whole seconds of a clock reading, and 0 where there is none because
/// the clock stands before the epoch.
pub fn seconds_or_zero(reading: Option<u64>) -> (t: u64)
    ensures
        t == match reading {
            Some(s) => s,
            None => 0,
        },
{
    match reading {
        Some(s) => s,
        None => 0,
    }
}

/// Unix time in whole seconds as the clock reads now, 0 for a clock before the epoch.
/// Which value that is depends on the clock alone; `seconds_or_zero` states the rest.
pub fn unix_seconds_now() -> u64 {
    let now = SystemTime::now();
    let reading = match now.duration_since(unix_epoch()) {
        Ok(elapsed) => Some(elapsed.as_secs()),
        Err(_) => None,
    };
    seconds_or_zero(reading)
}

} // verus!
