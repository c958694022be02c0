//! Seeding from the environment, for callers that ask for a key pair without
//! supplying a seed.  Kept behind one trusted boundary so that nothing else
//! in the library depends on the clock.

use vstd::prelude::*;

verus! {

/// Relies on std::time::SystemTime::now (read through duration_since and
/// as_nanos) for a time-varying 64-bit value; nothing is promised of the
/// result, and callers state only what holds of every outcome.
#[verifier::external_body]
pub(crate) fn clock_entropy() -> u64 {
    let now = std::time::SystemTime::now().duration_since(std::time::UNIX_EPOCH).unwrap_or_default();
    now.as_nanos() as u64
}

} // verus!
