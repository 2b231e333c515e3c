//! Calls into the `rand` crate for the random choices that the
//! behaviours make.

use vstd::prelude::*;
use rand::RngExt;
use rand::rngs::StdRng;

verus! {

/// The random number generator that behaviours draw from.
#[verifier::external_type_specification]
#[verifier::external_body]
pub struct ExStdRng(StdRng);

/// Calls `rand::RngExt::random_range` with the inclusive range
/// `low..=high`. Its documentation promises a value in the range, and it
/// panics on an empty range, which `requires` rules out. Which value of
/// the range comes out is left to chance, and how the generator's state
/// changes is not stated.
#[verifier::external_body]
pub(crate) fn random_between_inclusive(rng: &mut StdRng, low: i32, high: i32) -> (r: i32)
    requires
        low <= high,
    ensures
        low <= r <= high,
{
    rng.random_range(low..=high)
}

/// Calls `rand::RngExt::random` for a `u64`. Any value may come out, and
/// how the generator's state changes is not stated.
#[verifier::external_body]
pub(crate) fn random_u64(rng: &mut StdRng) -> u64 {
    rng.random::<u64>()
}

} // verus!
