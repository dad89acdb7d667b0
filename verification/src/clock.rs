//! Wall-clock time (the `chrono` crate), as milliseconds since the Unix epoch.

use vstd::prelude::*;

verus! {

/// `chrono::Utc::now().timestamp_millis()`: the current UTC time in
/// milliseconds since the Unix epoch. The value depends on the clock, so
/// nothing is stated of it.
#[verifier::external_body]
pub(crate) fn utc_now_millis() -> (res: i64) {
    chrono::Utc::now().timestamp_millis()
}

} // verus!
