//! The clock by which the list dates its items.

use vstd::prelude::*;

verus! {

/// Calls `chrono::Utc::now` and hands back `DateTime::timestamp_millis` of
/// it: the time of the call in milliseconds since the Unix epoch. Trusted;
/// nothing is claimed of the value, which is whatever the system clock says.
#[verifier::external_body]
pub(crate) fn now_millis() -> (now: i64) {
    chrono::Utc::now().timestamp_millis()
}

} // verus!
