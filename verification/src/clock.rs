//! The creation timestamp of a subscriber row, as seconds since the
//! Unix epoch.

use vstd::prelude::*;

verus! {

/// Relies on `chrono::Utc::now`: the value is the current time, so
/// nothing is promised of it; every caller must cope with every value.
#[verifier::external_body]
pub(crate) fn now_timestamp() -> i64 {
    chrono::Utc::now().timestamp()
}

} // verus!
