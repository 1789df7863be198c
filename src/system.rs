//! Values that come from the system rather than from the data: fresh
//! identifiers and the current time.

use vstd::prelude::*;

verus! {

/// Relies on `uuid::Uuid::new_v4` and `uuid::Uuid::as_u128`: a random
/// version-4 identifier, read as a 128-bit integer. Nothing is promised of
/// its value.
#[verifier::external_body]
pub(crate) fn new_id() -> (r: u128) {
    uuid::Uuid::new_v4().as_u128()
}

/// Relies on `chrono::Utc::now` and `chrono::DateTime::timestamp_millis`:
/// milliseconds since the Unix epoch. `Utc::now` measures the duration since
/// the epoch, so the value is never negative; it panics where the system
/// clock is set before the epoch.
#[verifier::external_body]
pub(crate) fn now_millis() -> (r: i64)
    ensures
        r >= 0,
{
    chrono::Utc::now().timestamp_millis()
}

} // verus!
