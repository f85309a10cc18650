//! The wall clock, as milliseconds since the Unix epoch.

use vstd::prelude::*;

verus! {

/// The present moment, read from chrono's `Utc::now()` and turned into
/// milliseconds since the Unix epoch by its `timestamp_millis`. Nothing is
/// claimed of the value: two readings may come in any order.
#[verifier::external_body]
pub(crate) fn now_millis() -> (now: i64) {
    chrono::Utc::now().timestamp_millis()
}

} // verus!
