//! The process clock, behind a trusted boundary.

use vstd::prelude::*;

verus! {

/// Relies on `chrono::Utc::now` and `DateTime::timestamp_millis`: the current
/// UTC time as milliseconds since the Unix epoch. The result depends on the
/// machine clock, so nothing relates two calls; `Utc::now` returns only when
/// the clock is at or past the epoch, and then the milliseconds are
/// non-negative.
#[verifier::external_body]
pub(crate) fn now_millis() -> (r: i64)
    ensures
        r >= 0,
{
    chrono::Utc::now().timestamp_millis()
}

} // verus!
