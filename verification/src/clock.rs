//! The wall clock.

use vstd::prelude::*;

verus! {

/// Reads the current time, in microseconds since the Unix epoch.
///
/// Trusted: calls `chrono::Utc::now` and `chrono::DateTime::timestamp_micros`.
/// The value depends on the machine's clock, which may also step backwards,
/// so nothing is claimed of it. `Utc::now` does not return on a machine whose
/// clock is set before 1970.
#[verifier::external_body]
pub(crate) fn now_micros() -> i64 {
    chrono::Utc::now().timestamp_micros()
}

} // verus!
