//! The source of random words: a PCG generator.

use rand::RngCore;
use rand::SeedableRng;
use rand_pcg::Pcg64Mcg;

use vstd::prelude::*;

verus! {

/// The generator type of `rand_pcg`, of which `Pcg64Mcg` is another name.
#[verifier::external_type_specification]
#[verifier::external_body]
pub struct ExMcg128Xsl64(rand_pcg::Mcg128Xsl64);

/// The words that a generator is going to yield, by their position.
pub uninterp spec fn upcoming_words(rng: rand_pcg::Mcg128Xsl64) -> Map<nat, u64>;

/// The words that the generator seeded with `seed` yields, by their position.
pub uninterp spec fn seeded_words(seed: u64) -> Map<nat, u64>;

/// The words behind the first one.
pub open spec fn words_after_first(words: Map<nat, u64>) -> Map<nat, u64> {
    Map::new(|i: nat| true, |i: nat| words[i + 1])
}

/// Calls `Pcg64Mcg::seed_from_u64`, the default of `rand_core`'s `SeedableRng`:
/// the words to come depend on the seed alone.
#[verifier::external_body]
pub(crate) fn seeded_generator(seed: u64) -> (rng: Pcg64Mcg)
    ensures
        upcoming_words(rng) == seeded_words(seed),
{
    Pcg64Mcg::seed_from_u64(seed)
}

/// Calls `next_u64` of `Pcg64Mcg`, an implementation of `rand_core`'s
/// `RngCore`: it yields the first of the words to come and moves on by one.
#[verifier::external_body]
pub(crate) fn next_word(rng: &mut Pcg64Mcg) -> (word: u64)
    ensures
        word == upcoming_words(*old(rng))[0],
        upcoming_words(*final(rng)) == words_after_first(upcoming_words(*old(rng))),
{
    rng.next_u64()
}

} // verus!
