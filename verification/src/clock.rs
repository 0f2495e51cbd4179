//! The wall clock, read in nanoseconds since the Unix epoch.

use vstd::prelude::*;

verus! {

#[verifier::external_type_specification]
#[verifier::external_body]
pub struct ExSystemTime(std::time::SystemTime);

/// Calls `std::time::SystemTime::now()`. The result is the machine's clock,
/// so nothing is stated of it.
#[verifier::external_body]
fn system_now() -> std::time::SystemTime {
    std::time::SystemTime::now()
}

#[verifier::external_type_specification]
#[verifier::external_body]
pub struct ExSystemTimeError(std::time::SystemTimeError);

/// Calls `SystemTime::duration_since(UNIX_EPOCH)`: the time elapsed since
/// the epoch, or an error when the time lies before it. Nothing is stated of
/// which comes back, since it rests on the clock.
#[verifier::external_body]
fn since_epoch(
    t: std::time::SystemTime,
) -> core::result::Result<core::time::Duration, std::time::SystemTimeError> {
    t.duration_since(std::time::UNIX_EPOCH)
}

/// Calls `Duration::as_nanos`, the whole duration in nanoseconds. Nothing is
/// stated of the count, since the duration is opaque here.
#[verifier::external_body]
fn duration_nanos(d: core::time::Duration) -> u128 {
    d.as_nanos()
}

/// The current time in nanoseconds since the Unix epoch, truncated to 64
/// bits (zero for a clock set before the epoch).
pub(crate) fn unix_time_ns() -> u64 {
    match since_epoch(system_now()) {
        Ok(elapsed) => {
            let nanos = duration_nanos(elapsed);
            nanos as u64
        },
        Err(_) => 0,
    }
}

} // verus!
