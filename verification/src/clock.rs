//! The wall clock.

use vstd::prelude::*;

verus! {

/// The current time in microseconds since the Unix epoch, from
/// `chrono::Utc::now().timestamp_micros()`. Nothing is promised of the
/// value: it is whatever the system clock reads.
#[verifier::external_body]
pub(crate) fn now_micros() -> (now: i64) {
    chrono::Utc::now().timestamp_micros()
}

} // verus!
