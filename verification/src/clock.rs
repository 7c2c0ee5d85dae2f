//! The wall clock, read once per operation and handed to the pure
//! logic as a plain value.

use vstd::prelude::*;

verus! {

/// Relies on chrono's `Utc::now`: the current time as whole seconds
/// since the Unix epoch. No bound is placed on the value; every
/// caller states what holds for an arbitrary reading.
#[verifier::external_body]
pub fn now_seconds() -> i64 {
    chrono::Utc::now().timestamp()
}

} // verus!
