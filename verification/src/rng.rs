//! The random stream: one seeded PCG32 generator, drawn from in a fixed order.
//!
//! The generator itself is the `rand_pcg` crate's. What this module proves
//! rests on two facts about it: that a generator is nothing but its two
//! 64-bit words, and that the word it hands out and the words it is left with
//! depend on nothing else.

use vstd::prelude::*;
use crate::fixed::Fixed;
use crate::fixed::ONE;

verus! {

/// The generator of `rand_pcg`, opaque to the verifier.
#[verifier::external_type_specification]
#[verifier::external_body]
pub struct ExPcg32(rand_pcg::Lcg64Xsh32);

/// The two words that make up a generator: its state and its increment.
pub uninterp spec fn pcg32_words(rng: rand_pcg::Lcg64Xsh32) -> (u64, u64);

/// What one draw does to a generator made of `state` and `increment`: the
/// 32-bit word that it hands out, and the state that it is left with.
pub uninterp spec fn pcg32_next(state: u64, increment: u64) -> (u32, u64);

/// The two words of the generator that `seed` gives.
pub uninterp spec fn pcg32_seeded(seed: u64) -> (u64, u64);

/// The words of a generator after one draw.
pub open spec fn advanced(words: (u64, u64)) -> (u64, u64) {
    (pcg32_next(words.0, words.1).1, words.1)
}

/// The uniform draw from `[0, 1)` that a generator with these words gives:
/// the upper 24 bits of its next word, read as a raw fixed-point value.
pub open spec fn unit_of(words: (u64, u64)) -> int {
    pcg32_next(words.0, words.1).0 as int / 256
}

/// The uniform draw from `[-1, 1)` that a generator with these words gives.
pub open spec fn signed_of(words: (u64, u64)) -> int {
    2 * unit_of(words) - ONE
}

/// `SeedableRng::seed_from_u64` of `rand` for `Pcg32`: the generator depends
/// on the seed alone.
#[verifier::external_body]
pub(crate) fn seeded(seed: u64) -> (rng: rand_pcg::Lcg64Xsh32)
    ensures
        pcg32_words(rng) == pcg32_seeded(seed),
{
    rand::SeedableRng::seed_from_u64(seed)
}

/// `RngCore::next_u32` of `rand` for `Pcg32`: the word handed out depends on
/// the generator's two words alone; the call steps the state and leaves the
/// increment as it was.
#[verifier::external_body]
pub(crate) fn next_word(rng: &mut rand_pcg::Lcg64Xsh32) -> (word: u32)
    ensures
        (word, pcg32_words(*final(rng)).0) == pcg32_next(
            pcg32_words(*old(rng)).0,
            pcg32_words(*old(rng)).1,
        ),
        pcg32_words(*final(rng)).1 == pcg32_words(*old(rng)).1,
{
    rand::RngCore::next_u32(rng)
}

/// Draws a fixed-point number uniformly from `[0, 1)`.
pub fn draw_unit(rng: &mut rand_pcg::Lcg64Xsh32) -> (r: Fixed)
    ensures
        r == unit_of(pcg32_words(*old(rng))),
        pcg32_words(*final(rng)) == advanced(pcg32_words(*old(rng))),
        0 <= r < ONE,
{
    let word: u32 = next_word(rng);
    assert(word >> 8 == word / 256 && (word >> 8) < 16_777_216) by (bit_vector);
    (word >> 8) as i64
}

/// Draws a fixed-point number uniformly from `[-1, 1)`.
pub fn draw_signed(rng: &mut rand_pcg::Lcg64Xsh32) -> (r: Fixed)
    ensures
        r == signed_of(pcg32_words(*old(rng))),
        pcg32_words(*final(rng)) == advanced(pcg32_words(*old(rng))),
        -ONE <= r < ONE,
{
    let unit: i64 = draw_unit(rng);
    2 * unit - ONE
}

} // verus!
