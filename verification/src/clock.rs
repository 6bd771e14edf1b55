//! The wall clock.

use vstd::prelude::*;

verus! {

/// Reads the system clock with `chrono::Utc::now` and hands out
/// `DateTime::timestamp_millis` of it: the milliseconds since the start of
/// 1970. Nothing is claimed of the value. `Utc::now` does not return where
/// the system clock stands before 1970.
#[verifier::external_body]
pub(crate) fn now_millis() -> (now: i64) {
    chrono::Utc::now().timestamp_millis()
}

} // verus!
