//! The wall clock, as the timestamp policy reads it.

use std::time::Duration;
use std::time::SystemTime;
use std::time::SystemTimeError;
use std::time::UNIX_EPOCH;
use vstd::prelude::*;

verus! {

/// A point in time of the system's wall clock. Nothing is known of its value.
#[verifier::external_type_specification]
#[verifier::external_body]
pub struct ExSystemTime(std::time::SystemTime);

/// The failure of measuring a span between two points in time that lie the
/// wrong way round. Nothing is known of its value.
#[verifier::external_type_specification]
#[verifier::external_body]
pub struct ExSystemTimeError(std::time::SystemTimeError);

/// Calls `SystemTime::now`. The result is whatever the system's clock says
/// at the moment of the call, so nothing is claimed of it.
#[verifier::external_body]
fn system_now() -> SystemTime {
    SystemTime::now()
}

/// Calls `SystemTime::duration_since` with the Unix epoch as the earlier
/// point: the time elapsed since the epoch, or the failure that the standard
/// library reports for a clock set before it. Nothing is claimed of either.
#[verifier::external_body]
fn since_unix_epoch(time: &SystemTime) -> Result<Duration, SystemTimeError> {
    time.duration_since(UNIX_EPOCH)
}

/// Calls `Duration::as_nanos`: the span in whole nanoseconds. Nothing is
/// claimed of the number.
#[verifier::external_body]
fn whole_nanoseconds(span: &Duration) -> u128 {
    span.as_nanos()
}

/// The nanoseconds that have passed since the Unix epoch, and zero where the
/// system's clock is set before it.
pub(crate) fn unix_nanos() -> u128 {
    let now = system_now();
    match since_unix_epoch(&now) {
        Ok(elapsed) => whole_nanoseconds(&elapsed),
        Err(_) => 0,
    }
}

} // verus!
