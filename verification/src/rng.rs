//! Draws of randomness for enemy spawning, taken from the `fastrand`
//! thread-local generator. Everything computed from these draws is verified
//! for every value the contracts admit.

use vstd::prelude::*;

verus! {

/// Relies on fastrand::bool: a random boolean from the thread-local
/// generator. Nothing can be promised of the outcome.
#[verifier::external_body]
pub(crate) fn random_bool() -> bool {
    fastrand::bool()
}

/// Relies on fastrand::i64: a value drawn from the half-open range
/// `lo..hi`; it panics only on an empty range, which the precondition
/// rules out.
#[verifier::external_body]
pub(crate) fn random_in_range(lo: i64, hi: i64) -> (r: i64)
    requires
        lo < hi,
    ensures
        lo <= r < hi,
{
    fastrand::i64(lo..hi)
}

} // verus!
