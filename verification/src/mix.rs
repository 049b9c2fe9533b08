//! The three mixing steps of Murmur3: scrambling an input word, folding a
//! scrambled block into the running state, and the closing avalanche.
//!
//! Every product and sum is taken modulo 2^32.

use vstd::prelude::*;
use crate::word::{rotate_left, spec_rotate_left, wrap32};

verus! {

/// First multiplier of the input scramble.
pub const C1: u32 = 0xcc9e_2d51;

/// Second multiplier of the input scramble.
pub const C2: u32 = 0x1b87_3593;

/// Addend of the block round.
pub const ROUND_ADDEND: u32 = 0xe654_6b64;

/// First multiplier of the avalanche.
pub const AVALANCHE_1: u32 = 0x85eb_ca6b;

/// Second multiplier of the avalanche.
pub const AVALANCHE_2: u32 = 0xc2b2_ae35;

/// The scramble of an input word: times `C1`, rotated left by 15, times `C2`.
pub open spec fn spec_scramble(k: u32) -> u32 {
    wrap32(spec_rotate_left(wrap32(k * C1), 15) * C2)
}

/// Scrambles one input word, a full block or a tail alike.
#[verifier::when_used_as_spec(spec_scramble)]
pub fn scramble(k: u32) -> (r: u32)
    ensures
        r == spec_scramble(k),
{
    let k: u32 = k.wrapping_mul(C1);
    let k: u32 = rotate_left(k, 15);
    k.wrapping_mul(C2)
}

/// The state after a full block: the scrambled block is xor-ed into the
/// state, which is then rotated left by 13, multiplied by 5 and raised by
/// `ROUND_ADDEND`.
pub open spec fn spec_mix_block(h: u32, k: u32) -> u32 {
    wrap32(spec_rotate_left(h ^ spec_scramble(k), 13) * 5 + ROUND_ADDEND)
}

/// Folds the full block `k` into the state `h`.
#[verifier::when_used_as_spec(spec_mix_block)]
pub fn mix_block(h: u32, k: u32) -> (r: u32)
    ensures
        r == spec_mix_block(h, k),
{
    let h: u32 = h ^ scramble(k);
    let h: u32 = rotate_left(h, 13);
    h.wrapping_mul(5).wrapping_add(ROUND_ADDEND)
}

/// For a fixed block, the block round is one-to-one in the state: xor,
/// rotation, and a product with an odd number plus an addend modulo 2^32 can
/// each be undone.
pub proof fn lemma_mix_block_injective(h1: u32, h2: u32, k: u32)
    requires
        spec_mix_block(h1, k) == spec_mix_block(h2, k),
    ensures
        h1 == h2,
{
    assert(h1 == h2) by (bit_vector)
        requires
            spec_mix_block(h1, k) == spec_mix_block(h2, k),
    ;
}

/// The state after the tail: the scrambled tail word is xor-ed into the
/// state and nothing more; a tail gets no rotation, product or addend.
pub open spec fn spec_mix_tail(h: u32, k: u32) -> u32 {
    h ^ spec_scramble(k)
}

/// Folds the tail word `k` into the state `h`.
#[verifier::when_used_as_spec(spec_mix_tail)]
pub fn mix_tail(h: u32, k: u32) -> (r: u32)
    ensures
        r == spec_mix_tail(h, k),
{
    h ^ scramble(k)
}

/// For a fixed tail word, the tail step is one-to-one in the state.
pub proof fn lemma_mix_tail_injective(h1: u32, h2: u32, k: u32)
    requires
        spec_mix_tail(h1, k) == spec_mix_tail(h2, k),
    ensures
        h1 == h2,
{
    let s = spec_scramble(k);
    assert(h1 == h2) by (bit_vector)
        requires
            h1 ^ s == h2 ^ s,
    ;
}

/// A word xor-ed with its own bits shifted right by `s` places: the stage
/// of the avalanche that carries high bits down.
pub open spec fn xor_shift(h: u32, s: u32) -> u32 {
    h ^ (h >> s)
}

/// The avalanche of a state: shifted by 16 and multiplied by `AVALANCHE_1`,
/// shifted by 13 and multiplied by `AVALANCHE_2`, shifted by 16 once more.
pub open spec fn spec_fmix32(h: u32) -> u32 {
    let h: u32 = xor_shift(h, 16);
    let h: u32 = wrap32(h * AVALANCHE_1);
    let h: u32 = xor_shift(h, 13);
    let h: u32 = wrap32(h * AVALANCHE_2);
    xor_shift(h, 16)
}

/// Spreads every bit of the state `h` over the whole word.
#[verifier::when_used_as_spec(spec_fmix32)]
pub fn fmix32(h: u32) -> (r: u32)
    ensures
        r == spec_fmix32(h),
{
    let h: u32 = h ^ (h >> 16);
    let h: u32 = h.wrapping_mul(AVALANCHE_1);
    let h: u32 = h ^ (h >> 13);
    let h: u32 = h.wrapping_mul(AVALANCHE_2);
    h ^ (h >> 16)
}

/// The avalanche is one-to-one: distinct states stay distinct. Each of its
/// five stages can be undone, a xor with shifted upper bits from the top
/// down, a product with an odd number by the number's inverse modulo 2^32.
pub proof fn lemma_fmix32_injective(h1: u32, h2: u32)
    requires
        spec_fmix32(h1) == spec_fmix32(h2),
    ensures
        h1 == h2,
{
    let a1 = xor_shift(h1, 16);
    let a2 = xor_shift(h2, 16);
    let b1 = wrap32(a1 * AVALANCHE_1);
    let b2 = wrap32(a2 * AVALANCHE_1);
    let c1 = xor_shift(b1, 13);
    let c2 = xor_shift(b2, 13);
    let d1 = wrap32(c1 * AVALANCHE_2);
    let d2 = wrap32(c2 * AVALANCHE_2);
    assert(xor_shift(d1, 16) == xor_shift(d2, 16));
    assert(d1 == d2) by (bit_vector)
        requires
            xor_shift(d1, 16) == xor_shift(d2, 16),
    ;
    assert(c1 == c2) by (bit_vector)
        requires
            wrap32(c1 * AVALANCHE_2) == wrap32(c2 * AVALANCHE_2),
    ;
    assert(b1 == b2) by (bit_vector)
        requires
            xor_shift(b1, 13) == xor_shift(b2, 13),
    ;
    assert(a1 == a2) by (bit_vector)
        requires
            wrap32(a1 * AVALANCHE_1) == wrap32(a2 * AVALANCHE_1),
    ;
    assert(h1 == h2) by (bit_vector)
        requires
            xor_shift(h1, 16) == xor_shift(h2, 16),
    ;
}

} // verus!
