//! The wall clock, as a Unix timestamp in seconds. Nothing can be promised
//! of the reading; callers state what holds for every value.

use vstd::prelude::*;

verus! {

/// Relies on chrono::Utc::now: the current time as seconds since the Unix
/// epoch.
#[verifier::external_body]
pub fn current_timestamp() -> (r: i64) {
    chrono::Utc::now().timestamp()
}

} // verus!
