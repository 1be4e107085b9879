//! The noise source: a 32-bit state that one hash step per sample advances.

use vstd::prelude::*;

verus! {

/// The multiplier of every round of the hash.
pub const HASH_MULTIPLIER: u32 = 2654435769;

/// The word that the first round mixes into the state.
pub const HASH_KEY: u32 = 2747636419;

/// The low 32 bits of a product.
pub open spec fn wrapping_product(x: u32, y: u32) -> u32 {
    ((x as int * y as int) % 0x1_0000_0000) as u32
}

/// One round: fold the high half into the low half, then multiply.
pub open spec fn fold_round(s: u32) -> u32 {
    wrapping_product(s ^ (s >> 16), HASH_MULTIPLIER)
}

/// One step of the generator: the state after it, which is also the word it
/// hands out.
pub open spec fn scramble(s: u32) -> u32 {
    fold_round(fold_round(wrapping_product(s ^ HASH_KEY, HASH_MULTIPLIER)))
}

/// The word that step number `n` (counted from zero) hands out when the
/// generator starts from `seed`.
pub open spec fn nth_word(seed: u32, n: nat) -> u32
    decreases n,
{
    if n == 0 {
        scramble(seed)
    } else {
        nth_word(scramble(seed), (n - 1) as nat)
    }
}

/// `minirng::hash::next_u32` replaces the state by its three-round hash and
/// returns the new state.
pub assume_specification[ minirng::hash::next_u32 ](state: &mut u32) -> (word: u32)
    ensures
        *final(state) == scramble(*old(state)),
        word == scramble(*old(state)),
;

/// `minirng::hash::random_seed` reads the system clock; nothing is known of
/// the word it returns.
pub assume_specification[ minirng::hash::random_seed ]() -> u32;

/// The generator: its state is the word it handed out last, or the seed it
/// was made with.
pub struct NoiseGenerator {
    pub seed: u32,
}

impl NoiseGenerator {
    /// A generator that starts from `seed`.
    pub fn new(seed: u32) -> (g: Self)
        ensures
            g.seed == seed,
    {
        NoiseGenerator { seed }
    }

    /// A generator seeded from the clock; every word it may give is a seed.
    pub fn from_entropy() -> (g: Self) {
        let seed: u32 = minirng::hash::random_seed();
        Self::new(seed)
    }

    /// Advances the state by one step and returns the new state. Divided by
    /// the largest 32-bit value, the word is a number from 0 to 1.
    pub fn step(&mut self) -> (word: u32)
        ensures
            word == scramble(old(self).seed),
            final(self).seed == word,
    {
        minirng::hash::next_u32(&mut self.seed)
    }
}

/// The words follow from the seed alone: generators with equal seeds hand out
/// equal words at every step.
pub proof fn lemma_noise_deterministic(a: NoiseGenerator, b: NoiseGenerator, n: nat)
    requires
        a.seed == b.seed,
    ensures
        nth_word(a.seed, n) == nth_word(b.seed, n),
{
}

} // verus!
