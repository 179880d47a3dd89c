//! The time of day.

use vstd::prelude::*;

verus! {

/// Calls `chrono::Utc::now` and hands back the instant as microseconds since
/// the Unix epoch (`DateTime::timestamp_micros`). Nothing is claimed of the
/// value: it is the machine's clock.
#[verifier::external_body]
pub(crate) fn current_time() -> (micros: i64) {
    chrono::Utc::now().timestamp_micros()
}

} // verus!
