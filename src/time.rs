//! The clock.

use vstd::prelude::*;

verus! {

/// Relies on `SystemTime::elapsed` on `UNIX_EPOCH`: the whole seconds from
/// the epoch to now, or `None` where the clock stands before the epoch. What
/// it returns depends on the moment of the call.
#[verifier::external_body]
fn seconds_since_epoch() -> (r: Option<u64>) {
    std::time::UNIX_EPOCH.elapsed().ok().map(|d| d.as_secs())
}

/// The timestamp of a clock reading in whole seconds since the epoch: `0`
/// for a clock before the epoch, and the largest `i64` for a reading beyond
/// it.
pub open spec fn timestamp_of_spec(reading: Option<u64>) -> i64 {
    match reading {
        None => 0,
        Some(s) => if s > i64::MAX as u64 {
            i64::MAX
        } else {
            s as i64
        },
    }
}

pub fn timestamp_of(reading: Option<u64>) -> (r: i64)
    ensures
        r == timestamp_of_spec(reading),
{
    match reading {
        Some(s) => if s > i64::MAX as u64 {
            i64::MAX
        } else {
            s as i64
        },
        None => 0,
    }
}

/// The current time in whole seconds since the epoch, as [`timestamp_of`]
/// reads the clock.
pub fn get_current_timestamp() -> (r: i64)
    ensures
        exists|reading: Option<u64>| r == timestamp_of_spec(reading),
        r >= 0,
{
    let reading = seconds_since_epoch();
    timestamp_of(reading)
}

} // verus!
