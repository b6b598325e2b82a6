//! Access to the wall clock, behind a trusted boundary.

use vstd::prelude::*;

verus! {

/// Relies on `chrono::Utc::now` and `chrono::DateTime::timestamp`: the
/// current wall-clock time as whole seconds since the Unix epoch.  Nothing
/// can be promised about a clock reading, so the contract is empty; callers
/// state what holds of every possible reading.
#[verifier::external_body]
pub(crate) fn now_unix_seconds() -> i64 {
    chrono::Utc::now().timestamp()
}

} // verus!
