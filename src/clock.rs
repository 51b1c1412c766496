use vstd::prelude::*;
use std::time::{Duration, SystemTime, SystemTimeError};
use crate::kinds::Time;

verus! {

#[verifier::external_type_specification]
#[verifier::external_body]
pub struct ExSystemTime(std::time::SystemTime);

#[verifier::external_type_specification]
#[verifier::external_body]
pub struct ExSystemTimeError(std::time::SystemTimeError);

/// Relies on `SystemTime::now`: the current wall-clock time; nothing is
/// known of its value.
pub assume_specification[ std::time::SystemTime::now ]() -> std::time::SystemTime;

/// Relies on `Duration::as_secs`: the whole seconds of a duration.
pub assume_specification[ std::time::Duration::as_secs ](d: &std::time::Duration) -> u64;

/// Relies on `SystemTime::duration_since`, measured from `UNIX_EPOCH`: the
/// time elapsed since the epoch, or an error for a time before it.
#[verifier::external_body]
fn since_epoch(t: &SystemTime) -> Result<Duration, SystemTimeError> {
    t.duration_since(std::time::UNIX_EPOCH)
}

/// The current time in seconds since the Unix epoch; a clock set before the
/// epoch reads 0, and one past the range of `Time` reads its largest value.
pub fn now() -> (r: Time)
    ensures
        r >= 0,
{
    let t = SystemTime::now();
    match since_epoch(&t) {
        Ok(d) => {
            let secs = d.as_secs();
            if secs <= i64::MAX as u64 {
                secs as i64
            } else {
                i64::MAX
            }
        },
        Err(_) => 0,
    }
}

} // verus!
