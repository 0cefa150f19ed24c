//! The wall clock.

use vstd::prelude::*;

verus! {

/// Reads the current time with `chrono::Utc::now` and returns it as seconds
/// since the Unix epoch, as `DateTime::timestamp` gives them. Nothing is
/// promised about the value: it is whatever the system clock says.
#[verifier::external_body]
pub(crate) fn now_timestamp() -> i64 {
    chrono::Utc::now().timestamp()
}

} // verus!
