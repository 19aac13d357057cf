//! The clock reading stamped on a child's status reports.

use vstd::prelude::*;

use crate::types::duration_millis;

verus! {

#[verifier::external_type_specification]
#[verifier::external_body]
pub struct ExSystemTime(std::time::SystemTime);

#[verifier::external_type_specification]
#[verifier::external_body]
pub struct ExSystemTimeError(std::time::SystemTimeError);

/// Reads the system clock with `SystemTime::now`. The result is the current
/// time, so nothing is stated of it.
#[verifier::external_body]
fn system_time_now() -> (now: std::time::SystemTime) {
    std::time::SystemTime::now()
}

/// `SystemTime::duration_since(UNIX_EPOCH)`: the time elapsed from the Unix
/// epoch to `now`, or an error when `now` lies before the epoch. Nothing is
/// stated of the result: it depends on the clock reading held in `now`, which
/// is opaque here.
#[verifier::external_body]
fn elapsed_since_unix_epoch(now: &std::time::SystemTime) -> (elapsed: Result<
    core::time::Duration,
    std::time::SystemTimeError,
>) {
    now.duration_since(std::time::UNIX_EPOCH)
}

/// The timestamp of a report: the whole milliseconds elapsed since the Unix
/// epoch, truncated to 64 bits, or 0 when the clock reads earlier than the
/// epoch (`None`).
pub fn timestamp_from_elapsed_millis(elapsed_millis: Option<u128>) -> (timestamp_ms: u64)
    ensures
        elapsed_millis matches Some(millis) ==> timestamp_ms == millis as u64,
        elapsed_millis is None ==> timestamp_ms == 0,
{
    match elapsed_millis {
        Some(millis) => millis as u64,
        None => 0,
    }
}

/// Returns the current system time in milliseconds since the Unix epoch, or 0
/// when the clock reads earlier than the epoch.
pub fn current_time_ms() -> (timestamp_ms: u64)
    ensures
        timestamp_ms == 0 || exists|elapsed: core::time::Duration|
            timestamp_ms == #[trigger] duration_millis(elapsed) as u64,
{
    let now = system_time_now();
    let elapsed_millis = match elapsed_since_unix_epoch(&now) {
        Ok(elapsed) => {
            let millis = elapsed.as_millis();
            assert(millis == duration_millis(elapsed));
            Some(millis)
        },
        Err(_) => None,
    };
    timestamp_from_elapsed_millis(elapsed_millis)
}

} // verus!
