//! The system clock, behind a trusted boundary.

use vstd::prelude::*;

verus! {

/// Relies on chrono::Utc::now for the current time, as seconds since the
/// Unix epoch.  Nothing is promised of the clock's value: every caller
/// must be correct whatever instant comes back.
#[verifier::external_body]
pub(crate) fn now_timestamp() -> i64 {
    chrono::Utc::now().timestamp()
}

} // verus!
