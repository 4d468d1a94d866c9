//! Trusted boundary to the `rand` crate: the game's seedable
//! pseudo-random source.  Nothing is assumed of the drawn values
//! beyond their range; every use of them is verified for every value
//! they could take.

use vstd::prelude::*;

use crate::cards::Card;

verus! {

/// Declares `rand`'s standard generator so values of it can stand in
/// fields and signatures; its internals stay opaque to verification.
#[verifier::external_type_specification]
#[verifier::external_body]
pub struct ExStdRng(rand::rngs::StdRng);

/// Relies on rand::SeedableRng::seed_from_u64 for rand::rngs::StdRng:
/// a generator deterministically derived from `seed`.
#[verifier::external_body]
pub fn rng_from_seed(seed: u64) -> rand::rngs::StdRng {
    <rand::rngs::StdRng as rand::SeedableRng>::seed_from_u64(seed)
}

/// Relies on rand::Rng::gen for `bool`: a random boolean; nothing can
/// be promised of its value.
#[verifier::external_body]
pub fn rng_bool(rng: &mut rand::rngs::StdRng) -> bool {
    rand::Rng::gen::<bool>(rng)
}

/// Relies on rand::Rng::gen_range over `0..n`: a random index below
/// `n`.  The call panics only on an empty range, which the
/// precondition rules out.
#[verifier::external_body]
pub fn rng_below(rng: &mut rand::rngs::StdRng, n: usize) -> (r: usize)
    requires
        n > 0,
    ensures
        r < n,
{
    rand::Rng::gen_range(rng, 0..n)
}

/// Relies on rand::seq::SliceRandom::shuffle: an in-place permutation
/// of the slice, so the length and the multiset of elements are kept.
#[verifier::external_body]
pub fn shuffle_cards(rng: &mut rand::rngs::StdRng, cards: &mut Vec<Card>)
    ensures
        final(cards)@.len() == old(cards)@.len(),
        final(cards)@.to_multiset() == old(cards)@.to_multiset(),
{
    rand::seq::SliceRandom::shuffle(cards.as_mut_slice(), rng)
}

} // verus!
