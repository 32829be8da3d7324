//! The random source of the deal, from the `rand` crate.

use rand::seq::SliceRandom;
use rand::FromEntropy;
use rand::Rng;
use vstd::prelude::*;

verus! {

#[verifier::external_type_specification]
#[verifier::external_body]
pub struct ExSmallRng(rand::rngs::SmallRng);

/// Relies on rand's `FromEntropy::from_entropy` for `SmallRng`: a generator
/// seeded from the operating system.
#[verifier::external_body]
pub(crate) fn new_small_rng() -> rand::rngs::SmallRng {
    rand::rngs::SmallRng::from_entropy()
}

/// Relies on rand's `Rng::gen_range`: a value in `[low, high)`; it panics
/// when `low >= high`.
#[verifier::external_body]
pub(crate) fn gen_range_usize(rng: &mut rand::rngs::SmallRng, low: usize, high: usize) -> (r: usize)
    requires
        low < high,
    ensures
        low <= r < high,
{
    rng.gen_range(low, high)
}

/// Relies on rand's `SliceRandom::shuffle`: it only swaps elements, so the
/// result is a permutation of the input.
#[verifier::external_body]
pub(crate) fn shuffle_usize(v: &mut Vec<usize>, rng: &mut rand::rngs::SmallRng)
    ensures
        final(v)@.to_multiset() == old(v)@.to_multiset(),
{
    v.as_mut_slice().shuffle(rng);
}

} // verus!
