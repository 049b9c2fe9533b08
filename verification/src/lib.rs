//! Murmur3 hashing of byte strings to 32-bit words, with machine-checked
//! functional correctness.

use vstd::prelude::*;

pub mod laws;
pub mod mix;
pub mod model;
pub mod word;

use crate::mix::{fmix32, mix_block, mix_tail};
use crate::model::{absorb_blocks, block_count, spec_murmur3_32};
use crate::word::load_le;

verus! {

/// Computes the 32-bit Murmur3 hash of `data` under `seed`.
///
/// The hash is fast and not cryptographic: it suits hash tables, not
/// adversaries. Every input is accepted, the empty one included. Blocks and
/// tail are decoded as little-endian on every machine, and all arithmetic
/// wraps modulo 2^32. The length is xor-ed in modulo 2^32.
pub fn murmur3_32(data: &[u8], seed: u32) -> (hash: u32)
    ensures
        hash == spec_murmur3_32(data@, seed),
{
    let len: usize = data.len();
    let num_blocks: usize = len / 4;
    let mut h1: u32 = seed;

    for i in 0..num_blocks
        invariant
            len == data@.len(),
            num_blocks == block_count(data@),
            h1 == absorb_blocks(data@, seed, i as nat),
    {
        let k1: u32 = load_le(data, i * 4, 4);
        h1 = mix_block(h1, k1);
    }

    let tail_start: usize = num_blocks * 4;
    let tail_len: usize = len - tail_start;
    if tail_len > 0 {
        let k1: u32 = load_le(data, tail_start, tail_len);
        h1 = mix_tail(h1, k1);
    }

    let low_len: u32 = #[verifier::truncate] (len as u32);
    proof {
        assert(low_len == (len as u64) % 0x1_0000_0000) by (bit_vector)
            requires
                low_len == len as u32,
        ;
    }
    fmix32(h1 ^ low_len)
}

} // verus!
