//! The wall clock, read as time since the Unix epoch.

use std::time::{Duration, SystemTime, SystemTimeError, UNIX_EPOCH};
use vstd::prelude::*;

verus! {

/// `std::time::SystemTime`, a reading of the wall clock. It is handed from
/// one call to the next and never looked into.
#[verifier::external_type_specification]
#[verifier::external_body]
pub struct ExSystemTime(SystemTime);

/// `std::time::SystemTimeError`, the error of a reading before the epoch.
/// It is never looked into.
#[verifier::external_type_specification]
#[verifier::external_body]
pub struct ExSystemTimeError(SystemTimeError);

/// Calls `SystemTime::now`. Nothing is known of the time it returns.
#[verifier::external_body]
fn system_now() -> SystemTime {
    SystemTime::now()
}

/// Calls `SystemTime::duration_since` with the Unix epoch; it fails for a
/// time before the epoch. Nothing more is known of its result.
#[verifier::external_body]
fn since_epoch(t: &SystemTime) -> Result<Duration, SystemTimeError> {
    t.duration_since(UNIX_EPOCH)
}

/// Calls `Duration::as_secs`. Nothing is known of the count it returns.
#[verifier::external_body]
fn whole_seconds(d: &Duration) -> u64 {
    d.as_secs()
}

/// Calls `Duration::as_micros`. Nothing is known of the count it returns.
#[verifier::external_body]
fn whole_micros(d: &Duration) -> u128 {
    d.as_micros()
}

/// A count of time since the epoch as a signed timestamp, where it fits.
pub open spec fn timestamp_of(count: Option<u128>) -> Option<i64> {
    match count {
        Some(n) => if n <= i64::MAX {
            Some(n as i64)
        } else {
            None
        },
        None => None,
    }
}

/// Turns a count of time since the epoch into a signed timestamp. A clock
/// that reads before the epoch has no count and gives no timestamp; neither
/// does a count beyond the range of the timestamp.
pub fn timestamp(count: Option<u128>) -> (r: Option<i64>)
    ensures
        r == timestamp_of(count),
{
    match count {
        Some(n) => {
            if n <= i64::MAX as u128 {
                Some(n as i64)
            } else {
                None
            }
        },
        None => None,
    }
}

/// Whole seconds since the Unix epoch, or `None` where the clock reads
/// before the epoch or beyond the range of the timestamp.
pub fn unix_seconds() -> (r: Option<i64>)
    ensures
        r matches Some(t) ==> t >= 0,
{
    let now = system_now();
    match since_epoch(&now) {
        Ok(d) => timestamp(Some(whole_seconds(&d) as u128)),
        Err(_) => timestamp(None),
    }
}

/// Whole microseconds since the Unix epoch, or `None` where the clock reads
/// before the epoch or beyond the range of the timestamp.
pub fn unix_micros() -> (r: Option<i64>)
    ensures
        r matches Some(t) ==> t >= 0,
{
    let now = system_now();
    match since_epoch(&now) {
        Ok(d) => timestamp(Some(whole_micros(&d))),
        Err(_) => timestamp(None),
    }
}

} // verus!
