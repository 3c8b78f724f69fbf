//! Timestamps in milliseconds and the deadline arithmetic on them.

use vstd::prelude::*;

verus! {

/// A UTC timestamp, in milliseconds since the Unix epoch. The only use the
/// procedure makes of time is comparing a stored deadline against a
/// current-time reading.
pub type Timestamp = i64;

/// The instant `delta_ms` milliseconds after `now`, saturating at the far
/// end of the timestamp range.
pub open spec fn deadline_after(now: Timestamp, delta_ms: u64) -> Timestamp {
    if now + delta_ms <= i64::MAX {
        (now + delta_ms) as i64
    } else {
        i64::MAX
    }
}

/// Computes `deadline_after` on machine integers.
pub fn compute_deadline(now: Timestamp, delta_ms: u64) -> (r: Timestamp)
    ensures
        r == deadline_after(now, delta_ms),
{
    let sum: i128 = now as i128 + delta_ms as i128;
    if sum <= i64::MAX as i128 {
        sum as i64
    } else {
        i64::MAX
    }
}

/// Relies on chrono's `Utc::now` and `DateTime::timestamp_millis`: reads the
/// wall clock as milliseconds since the Unix epoch. Nothing is promised of
/// the value, since it depends on the moment the call runs.
#[verifier::external_body]
pub(crate) fn now_millis() -> Timestamp {
    chrono::Utc::now().timestamp_millis()
}

} // verus!
