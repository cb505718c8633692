//! The wall clock, for the audit trail.

use vstd::prelude::*;

verus! {

#[verifier::external_type_specification]
#[verifier::external_body]
pub struct ExSystemTime(std::time::SystemTime);

#[verifier::external_type_specification]
#[verifier::external_body]
pub struct ExSystemTimeError(std::time::SystemTimeError);

/// Calls `SystemTime::now`.  Trusted for nothing: the time is whatever the
/// machine says.
#[verifier::external_body]
fn system_time_now() -> std::time::SystemTime {
    std::time::SystemTime::now()
}

/// Calls `SystemTime::duration_since(UNIX_EPOCH)`.  Trusted for nothing
/// beyond its type: it fails when the time lies before the epoch.
#[verifier::external_body]
fn since_unix_epoch(time: &std::time::SystemTime) -> Result<
    std::time::Duration,
    std::time::SystemTimeError,
> {
    time.duration_since(std::time::UNIX_EPOCH)
}

/// Calls `Duration::as_secs`.  Trusted for nothing beyond its type.
#[verifier::external_body]
fn whole_seconds(duration: &std::time::Duration) -> u64 {
    duration.as_secs()
}

/// The timestamp for a clock reading given as whole seconds since the epoch,
/// `None` when the clock stands before the epoch: then 0.
pub open spec fn timestamp_of(since_epoch: Option<u64>) -> u64 {
    match since_epoch {
        Some(s) => s,
        None => 0,
    }
}

/// Whether one clock reading, as whole seconds since the epoch (`None`
/// before the epoch), is not later than another.
pub open spec fn reading_not_later(first: Option<u64>, second: Option<u64>) -> bool {
    match (first, second) {
        (None, _) => true,
        (Some(_), None) => false,
        (Some(a), Some(b)) => a <= b,
    }
}

/// The timestamp given the whole seconds since the epoch, `None` when the
/// clock stands before the epoch: then 0.
pub fn seconds_or_zero(since_epoch: Option<u64>) -> (seconds: u64)
    ensures
        seconds == timestamp_of(since_epoch),
{
    match since_epoch {
        Some(s) => s,
        None => 0,
    }
}

/// A later clock reading never gives a smaller timestamp.
pub proof fn law_timestamp_monotone(first: Option<u64>, second: Option<u64>)
    requires
        reading_not_later(first, second),
    ensures
        timestamp_of(first) <= timestamp_of(second),
{
}

/// Seconds since the Unix epoch, 0 when the clock stands before it.
pub fn current_timestamp() -> u64 {
    let now = system_time_now();
    let since_epoch = match since_unix_epoch(&now) {
        Ok(elapsed) => Some(whole_seconds(&elapsed)),
        Err(_) => None,
    };
    seconds_or_zero(since_epoch)
}

} // verus!
