//! What the hash of a byte string is, as a function of the bytes and the
//! seed.

use vstd::prelude::*;
use crate::mix::{spec_fmix32, spec_mix_block, spec_mix_tail};
use crate::word::{le_word, wrap32};

verus! {

/// The number of full four-byte blocks in `data`.
pub open spec fn block_count(data: Seq<u8>) -> nat {
    data.len() / 4
}

/// The `i`-th full block of `data`, counted from zero.
pub open spec fn block(data: Seq<u8>, i: int) -> Seq<u8>
    recommends
        0 <= i < block_count(data),
{
    data.subrange(4 * i, 4 * i + 4)
}

/// The bytes of `data` behind its last full block: none to three of them.
pub open spec fn tail(data: Seq<u8>) -> Seq<u8> {
    data.subrange(4 * (block_count(data) as int), data.len() as int)
}

/// The state after the first `n` full blocks of `data`, each decoded as a
/// little-endian word and folded in order into a state that starts as
/// `seed`.
pub open spec fn absorb_blocks(data: Seq<u8>, seed: u32, n: nat) -> u32
    recommends
        n <= block_count(data),
    decreases n,
{
    if n == 0 {
        seed
    } else {
        spec_mix_block(absorb_blocks(data, seed, (n - 1) as nat), le_word(block(data, n - 1)))
    }
}

/// The state `h` after the tail bytes `rest`: unchanged where there are
/// none, else with their little-endian word folded in.
pub open spec fn absorb_tail(h: u32, rest: Seq<u8>) -> u32
    recommends
        rest.len() < 4,
{
    if rest.len() == 0 {
        h
    } else {
        spec_mix_tail(h, le_word(rest))
    }
}

/// The Murmur3 hash of `data` under `seed`: all full blocks are absorbed,
/// then the tail, then the length of `data` is xor-ed in and the avalanche
/// closes. The length enters modulo 2^32, so a string of 2^32 bytes or more
/// contributes the low 32 bits of its length.
pub open spec fn spec_murmur3_32(data: Seq<u8>, seed: u32) -> u32 {
    let h: u32 = absorb_blocks(data, seed, block_count(data));
    let h: u32 = absorb_tail(h, tail(data));
    spec_fmix32(h ^ wrap32(data.len() as int))
}

} // verus!
