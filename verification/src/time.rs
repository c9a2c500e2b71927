//! The one clock read the workflow needs.
//!
//! Everything that depends on the current time takes it as a plain
//! argument; only this wrapper actually reads the clock.

use vstd::prelude::*;

verus! {

/// Relies on chrono's `Utc::now`: the current time as milliseconds
/// since the Unix epoch. Nothing is assumed about the value; whatever
/// the clock reports is handed on as it is.
#[verifier::external_body]
pub(crate) fn current_millis() -> i64 {
    chrono::Utc::now().timestamp_millis()
}

} // verus!
