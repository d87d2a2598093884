//! The wall clock, read as whole seconds since the Unix epoch.

use std::time::Duration;
use std::time::SystemTime;
use std::time::SystemTimeError;
use vstd::prelude::*;

verus! {

/// `std::time::SystemTime`, an instant of the system clock. It is opaque
/// here.
#[verifier::external_type_specification]
#[verifier::external_body]
pub struct ExSystemTime(SystemTime);

/// `std::time::SystemTimeError`, the error of `SystemTime::duration_since`.
/// It is opaque here.
#[verifier::external_type_specification]
#[verifier::external_body]
pub struct ExSystemTimeError(SystemTimeError);

/// `SystemTime::now` reads the system clock. Nothing is claimed of the
/// instant it returns.
pub assume_specification[ SystemTime::now ]() -> (now: SystemTime);

/// `SystemTime::duration_since` gives the time elapsed from `earlier` to
/// `t`, or an error where `earlier` is the later of the two. Nothing is
/// claimed of which it is.
pub assume_specification[ SystemTime::duration_since ](t: &SystemTime, earlier: SystemTime) -> (r:
    Result<Duration, SystemTimeError>);

/// `Duration::as_secs` gives the whole seconds of a duration. Nothing is
/// claimed of their number.
pub assume_specification[ Duration::as_secs ](d: &Duration) -> (secs: u64);

/// The constant `SystemTime::UNIX_EPOCH`.
#[verifier::external_body]
fn unix_epoch() -> (epoch: SystemTime) {
    SystemTime::UNIX_EPOCH
}

/// The timestamp for a clock reading: the seconds it gave, or zero where the
/// clock could not give any.
pub open spec fn spec_timestamp(elapsed: Option<u64>) -> u64 {
    match elapsed {
        Some(secs) => secs,
        None => 0,
    }
}

/// Turns a clock reading into a timestamp. A clock that gave nothing never
/// fails a request: its reading counts as zero.
#[verifier::when_used_as_spec(spec_timestamp)]
pub fn timestamp(elapsed: Option<u64>) -> (ts: u64)
    ensures
        ts == spec_timestamp(elapsed),
{
    match elapsed {
        Some(secs) => secs,
        None => 0,
    }
}

/// Reads the clock: the whole seconds since the Unix epoch, or `None` where
/// the clock stands before the epoch.
pub fn seconds_since_epoch() -> (elapsed: Option<u64>) {
    let now = SystemTime::now();
    match now.duration_since(unix_epoch()) {
        Ok(d) => Some(d.as_secs()),
        Err(_) => None,
    }
}

} // verus!
