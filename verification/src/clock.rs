use std::time::{Duration, SystemTime, UNIX_EPOCH};
use vstd::prelude::*;

verus! {

/// A point in time as the system clock of the standard library gives it. Nothing of
/// its value is visible to proofs.
#[verifier::external_type_specification]
#[verifier::external_body]
pub struct ExSystemTime(SystemTime);

/// `SystemTime::now`: the current reading of the system clock. Nothing is claimed.
pub assume_specification[ SystemTime::now ]() -> (now: SystemTime)
;

/// `Duration::as_millis`: the whole milliseconds in a duration. Nothing is claimed,
/// since durations are not modelled.
pub assume_specification[ Duration::as_millis ](span: &Duration) -> (millis: u128)
;

/// `SystemTime::duration_since` the Unix epoch: the time from the epoch to `time`, or
/// `None` where `time` lies before the epoch. Nothing is claimed of the result.
#[verifier::external_body]
fn since_epoch(time: &SystemTime) -> Option<Duration> {
    time.duration_since(UNIX_EPOCH).ok()
}

/// The timestamp for a clock reading: the milliseconds where they fit, the largest
/// timestamp where they do not, and zero where the clock gave nothing.
pub open spec fn timestamp_of(reading: Option<u128>) -> i64 {
    match reading {
        Some(ms) => if ms <= i64::MAX {
            ms as i64
        } else {
            i64::MAX
        },
        None => 0,
    }
}

/// Turns a clock reading into a timestamp.
pub fn timestamp_from(reading: Option<u128>) -> (r: i64)
    ensures
        r == timestamp_of(reading),
        r >= 0,
{
    match reading {
        Some(ms) => if ms <= 9_223_372_036_854_775_807u128 {
            ms as i64
        } else {
            i64::MAX
        },
        None => 0,
    }
}

/// The current time in milliseconds since the Unix epoch: never negative, and zero
/// where the clock stands before the epoch.
pub fn now_ms() -> (r: i64)
    ensures
        r >= 0,
{
    let time = SystemTime::now();
    let reading = match since_epoch(&time) {
        Some(span) => Some(span.as_millis()),
        None => None,
    };
    timestamp_from(reading)
}

} // verus!
