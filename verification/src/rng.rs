//! Randomness, supplied by the `rand` crate behind trusted wrappers.
//!
//! Nothing is assumed about which value comes back, only about its
//! range or, for a shuffle, about the cells being rearranged rather
//! than changed.  Every decision taken on a random value is made by a
//! verified function that receives the value as an argument.

use vstd::prelude::*;

use crate::components::ConsumablePosition;
use rand::RngExt;
use rand::seq::SliceRandom;

verus! {

/// Relies on rand's `SliceRandom::shuffle`: it rearranges the slice in
/// place into a permutation of itself, so the cells as a multiset stay
/// the same.
#[verifier::external_body]
pub(crate) fn shuffle_cells(v: &mut Vec<ConsumablePosition>)
    ensures
        final(v)@.to_multiset() == old(v)@.to_multiset(),
        final(v)@.len() == old(v)@.len(),
{
    v.shuffle(&mut rand::rng());
}

/// Relies on rand's `RngExt::random_range` on the half-open range
/// `lo..hi`: the sample lies within the range; an empty range would
/// panic and is excluded here.
#[verifier::external_body]
pub(crate) fn random_in_range(lo: u32, hi: u32) -> (r: u32)
    requires
        lo < hi,
    ensures
        lo <= r < hi,
{
    rand::rng().random_range(lo..hi)
}

} // verus!
