//! The wall clock that stamps the records of a frame.

use std::time::{Duration, SystemTime, UNIX_EPOCH};
use vstd::prelude::*;

verus! {

/// `std::time::SystemTime`, carried through as it is: nothing is known here
/// of what a value of it holds.
#[verifier::external_type_specification]
#[verifier::external_body]
pub struct ExSystemTime(SystemTime);

/// `Duration::as_secs` gives the whole seconds of a duration. Nothing is
/// claimed of their number.
pub assume_specification[ Duration::as_secs ](duration: &Duration) -> (seconds: u64);

/// `Duration::subsec_micros` gives the part of a duration below one second,
/// in whole microseconds: always less than a million.
pub assume_specification[ Duration::subsec_micros ](duration: &Duration) -> (micros: u32)
    ensures
        micros < 1_000_000,
;

/// `SystemTime::now` reads the system clock. Nothing is claimed of the
/// time it gives.
#[verifier::external_body]
fn system_now() -> SystemTime {
    SystemTime::now()
}

/// `SystemTime::duration_since`, taken from the epoch: the time that has
/// passed since then, or nothing where `time` lies before the epoch.
/// Nothing is claimed of the duration.
#[verifier::external_body]
fn since_epoch(time: &SystemTime) -> Option<Duration> {
    match time.duration_since(UNIX_EPOCH) {
        Ok(duration) => Some(duration),
        Err(_) => None,
    }
}

/// Whether a pair of seconds and microseconds is a time that the clock can
/// give: neither is negative, and the microseconds stay below one second.
pub open spec fn is_clock_time(time: (i64, i64)) -> bool {
    0 <= time.0 && 0 <= time.1 < 1_000_000
}

/// Brings a reading of the clock into the form that stamps a record:
/// seconds, then microseconds. A number of seconds that the record cannot
/// hold gives nothing.
pub fn stamp_of(seconds: u64, micros: u32) -> (time: Option<(i64, i64)>)
    requires
        micros < 1_000_000,
    ensures
        time == if seconds <= i64::MAX as u64 {
            Some((seconds as i64, micros as i64))
        } else {
            None
        },
        time is Some ==> is_clock_time(time->0),
{
    if seconds <= i64::MAX as u64 {
        Some((seconds as i64, micros as i64))
    } else {
        None
    }
}

/// Reads the wall clock: seconds and microseconds since the epoch, or
/// nothing where the clock stands before the epoch or beyond what a record
/// can hold.
pub fn wall_clock() -> (time: Option<(i64, i64)>)
    ensures
        time is Some ==> is_clock_time(time->0),
{
    let now = system_now();
    match since_epoch(&now) {
        Some(duration) => stamp_of(duration.as_secs(), duration.subsec_micros()),
        None => None,
    }
}

} // verus!
