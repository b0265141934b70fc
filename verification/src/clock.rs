//! The clock.

use vstd::prelude::*;

verus! {

/// Calls `chrono::Utc::now` and reads it with `DateTime::timestamp_millis`:
/// the time in milliseconds since the epoch. It depends on the clock, so
/// nothing is claimed of it.
#[verifier::external_body]
pub(crate) fn now_millis() -> (t: i64) {
    chrono::Utc::now().timestamp_millis()
}

/// The time at this moment, in milliseconds since the epoch.
pub fn current_timestamp() -> (t: i64) {
    now_millis()
}

} // verus!
