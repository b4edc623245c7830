use vstd::prelude::*;
use crate::models::ProbeError;
use std::time::{Duration, SystemTime, SystemTimeError};

verus! {

#[verifier::external_type_specification]
#[verifier::external_body]
pub struct ExSystemTime(SystemTime);

#[verifier::external_type_specification]
#[verifier::external_body]
pub struct ExSystemTimeError(SystemTimeError);

/// Calls `SystemTime::now`: the current wall-clock time, of which nothing
/// can be promised.
#[verifier::external_body]
fn system_now() -> SystemTime {
    SystemTime::now()
}

/// What `t.duration_since(UNIX_EPOCH)` returns: the time elapsed from the
/// epoch to `t`, or an error when `t` lies before the epoch.
pub uninterp spec fn unix_epoch_offset(t: SystemTime) -> Result<Duration, SystemTimeError>;

/// Calls `SystemTime::duration_since` with `UNIX_EPOCH`; it fails when the
/// clock reading lies before the epoch.  The outcome is a function of the
/// reading alone and is named, not written out.
#[verifier::external_body]
fn since_unix_epoch(now: &SystemTime) -> (r: Result<Duration, SystemTimeError>)
    ensures
        r == unix_epoch_offset(*now),
{
    now.duration_since(std::time::UNIX_EPOCH)
}

/// What `Duration::as_secs` returns: the whole seconds of a duration.
pub uninterp spec fn duration_whole_secs(d: Duration) -> u64;

/// Calls `Duration::as_secs`.  `Duration` is opaque here, so its result is
/// named: equal durations give equal second counts.
#[verifier::external_body]
fn whole_seconds(d: &Duration) -> (s: u64)
    ensures
        s == duration_whole_secs(*d),
{
    d.as_secs()
}

/// The timestamp that a reading's offset from the epoch gives: its whole
/// seconds, or `TimeSyncError` when the reading lies before the epoch.
pub open spec fn spec_timestamp(offset: Result<Duration, SystemTimeError>) -> Result<u64, ProbeError> {
    match offset {
        Ok(d) => Ok(duration_whole_secs(d)),
        Err(_) => Err(ProbeError::TimeSyncError),
    }
}

/// Whole seconds since the UNIX epoch; a clock set before the epoch is a
/// `TimeSyncError`.  The clock is read once, and the result is the timestamp
/// of that reading.
pub fn current_timestamp() -> (res: Result<u64, ProbeError>)
    ensures
        exists|now: SystemTime| res == spec_timestamp(#[trigger] unix_epoch_offset(now)),
{
    let now = system_now();
    let res = match since_unix_epoch(&now) {
        Ok(d) => Ok(whole_seconds(&d)),
        Err(_) => Err(ProbeError::TimeSyncError),
    };
    assert(res == spec_timestamp(unix_epoch_offset(now)));
    res
}

/// What `Duration::from_millis` returns for a number of milliseconds.
pub uninterp spec fn millis_duration(ms: u64) -> Duration;

/// Calls `Duration::from_millis`.  `Duration` is opaque here, so its result
/// is only named: equal millisecond counts give equal durations.
#[verifier::external_body]
pub fn duration_from_millis(ms: u64) -> (d: Duration)
    ensures
        d == millis_duration(ms),
{
    Duration::from_millis(ms)
}

} // verus!
