//! The wall clock in milliseconds, as carried by pings.

use std::time::{Duration, SystemTime, UNIX_EPOCH};
use vstd::prelude::*;

verus! {

#[verifier::external_type_specification]
#[verifier::external_body]
pub struct ExSystemTime(SystemTime);

/// `SystemTime::now`: the current wall-clock time.
#[verifier::external_body]
fn system_now() -> (t: SystemTime) {
    SystemTime::now()
}

/// `SystemTime::duration_since(UNIX_EPOCH)`: time since 1970, or `None`
/// when the clock is set before it.
#[verifier::external_body]
fn since_unix_epoch(t: &SystemTime) -> (d: Option<Duration>) {
    t.duration_since(UNIX_EPOCH).ok()
}

/// `Duration::as_millis`: whole milliseconds of `d`.
#[verifier::external_body]
fn duration_millis(d: &Duration) -> (ms: u128) {
    d.as_millis()
}

/// The 64-bit millisecond stamp of a clock reading: the milliseconds
/// since 1970 truncated to 64 bits; none for a clock set before 1970.
pub open spec fn spec_epoch_stamp(since_epoch_ms: Option<u128>) -> Option<u64> {
    match since_epoch_ms {
        Some(ms) => Some((ms % 18446744073709551616u128) as u64),
        None => None,
    }
}

/// The 64-bit millisecond stamp of a clock reading (`None` for a clock
/// set before 1970).
pub fn epoch_stamp(since_epoch_ms: Option<u128>) -> (ms: Option<u64>)
    ensures
        ms == spec_epoch_stamp(since_epoch_ms),
{
    match since_epoch_ms {
        Some(ms) => Some((ms % 18446744073709551616u128) as u64),
        None => None,
    }
}

/// Milliseconds since 1970 by the wall clock, truncated to 64 bits;
/// `None` when the clock is set before 1970, a reading that the program
/// cannot work with. The reading itself depends on the time of the call,
/// so nothing is promised of the value.
pub fn current_time_ms() -> (ms: Option<u64>) {
    let now = system_now();
    let since = match since_unix_epoch(&now) {
        Some(d) => Some(duration_millis(&d)),
        None => None,
    };
    epoch_stamp(since)
}

} // verus!
