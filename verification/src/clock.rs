//! The wall clock, read in milliseconds since the Unix epoch.

use std::time::{Duration, SystemTime, UNIX_EPOCH};
use vstd::prelude::*;

verus! {

/// `std::time::SystemTime`, a reading of the system clock. Nothing is known
/// of what a value holds.
#[verifier::external_type_specification]
#[verifier::external_body]
pub struct ExSystemTime(std::time::SystemTime);

/// `SystemTime::now`: the system clock's current reading. Nothing is claimed
/// of the value, which differs from call to call.
#[verifier::external_body]
fn system_now() -> SystemTime {
    SystemTime::now()
}

/// `SystemTime::duration_since` with `UNIX_EPOCH` as the earlier point: the
/// time elapsed since the epoch, or `None` where the reading lies before it.
#[verifier::external_body]
fn since_unix_epoch(reading: &SystemTime) -> Option<Duration> {
    match reading.duration_since(UNIX_EPOCH) {
        Ok(elapsed) => Some(elapsed),
        Err(_) => None,
    }
}

/// `Duration::as_millis`: the duration in whole milliseconds.
#[verifier::external_body]
fn whole_millis(elapsed: &Duration) -> u128 {
    elapsed.as_millis()
}

/// Current Unix timestamp in milliseconds, reduced modulo 2^64. A clock that
/// reads earlier than the epoch yields 0.
pub fn current_timestamp_ms() -> u64 {
    let reading = system_now();
    match since_unix_epoch(&reading) {
        Some(elapsed) => {
            let millis: u128 = whole_millis(&elapsed);
            #[verifier::truncate]
            (millis as u64)
        },
        None => 0,
    }
}

} // verus!
