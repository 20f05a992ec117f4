//! Values only the host environment can produce: random identifiers and
//! the current time.

use vstd::prelude::*;

verus! {

/// Relies on rand's `random`: one uniformly random 64-bit value. Nothing
/// can be promised of the result.
#[verifier::external_body]
pub(crate) fn random_u64() -> u64 {
    rand::random()
}

/// Relies on chrono's `Local::now` and `DateTime::timestamp_nanos_opt`:
/// the current wall-clock time in nanoseconds since the epoch, where it
/// fits in an `i64`. The result depends on the clock, so nothing is
/// promised of it.
#[verifier::external_body]
pub(crate) fn now_timestamp_nanos() -> Option<i64> {
    chrono::Local::now().timestamp_nanos_opt()
}

} // verus!
