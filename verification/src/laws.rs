//! Laws of the hash, each proved of every input.

use vstd::prelude::*;
use crate::mix::{
    lemma_fmix32_injective, lemma_mix_block_injective, lemma_mix_tail_injective, spec_fmix32,
    spec_mix_block, spec_mix_tail, spec_scramble,
};
use crate::model::{absorb_blocks, absorb_tail, block, block_count, spec_murmur3_32, tail};
use crate::word::{le_word, wrap32};

verus! {

/// The hash is a function of the bytes and the seed and of nothing else:
/// byte strings that agree position by position, hashed under the same
/// seed, have the same hash, whichever buffers hold them and however often
/// the hash is taken.
pub proof fn lemma_equal_inputs_equal_hashes(a: Seq<u8>, s: u32, b: Seq<u8>, t: u32)
    requires
        a.len() == b.len(),
        forall|i: int| 0 <= i < a.len() ==> a[i] == b[i],
        s == t,
    ensures
        spec_murmur3_32(a, s) == spec_murmur3_32(b, t),
{
    assert(a =~= b);
}

/// The hash of the empty string is the avalanche of the seed: no block and
/// no tail are absorbed, and the length xor-ed in is zero.
pub proof fn lemma_empty_input(seed: u32)
    ensures
        spec_murmur3_32(Seq::<u8>::empty(), seed) == spec_fmix32(seed),
{
    assert(tail(Seq::<u8>::empty()).len() == 0);
    assert(seed ^ 0 == seed) by (bit_vector);
}

/// The hash of the empty string under seed zero is zero.
pub proof fn lemma_empty_input_zero_seed()
    ensures
        spec_murmur3_32(Seq::<u8>::empty(), 0) == 0,
{
    lemma_empty_input(0);
    assert(spec_fmix32(0) == 0) by (bit_vector);
}

/// Blocks and tail enter the state differently. The tail holds the
/// `len % 4` bytes behind the last full block. Where there are none, the
/// hash is the avalanche of the state after the blocks, xor the length.
/// Where there are some, their scrambled word is xor-ed into that state
/// first, and the state is neither rotated nor multiplied nor raised as it
/// is after a full block.
pub proof fn lemma_hash_by_tail_length(data: Seq<u8>, seed: u32)
    ensures
        tail(data).len() == data.len() % 4,
        data.len() % 4 == 0 ==> spec_murmur3_32(data, seed) == spec_fmix32(
            absorb_blocks(data, seed, block_count(data)) ^ wrap32(data.len() as int),
        ),
        data.len() % 4 != 0 ==> spec_murmur3_32(data, seed) == spec_fmix32(
            (absorb_blocks(data, seed, block_count(data)) ^ spec_scramble(le_word(tail(data))))
                ^ wrap32(data.len() as int),
        ),
{
}

/// The hash of one to three bytes: they are the tail, folded into the seed
/// itself.
pub proof fn lemma_tail_only(data: Seq<u8>, seed: u32)
    requires
        0 < data.len() < 4,
    ensures
        spec_murmur3_32(data, seed) == spec_fmix32(
            spec_mix_tail(seed, le_word(data)) ^ wrap32(data.len() as int),
        ),
{
    assert(tail(data) =~= data);
}

/// The hash of exactly four bytes: they are one block and there is no tail.
pub proof fn lemma_one_block(data: Seq<u8>, seed: u32)
    requires
        data.len() == 4,
    ensures
        spec_murmur3_32(data, seed) == spec_fmix32(spec_mix_block(seed, le_word(data)) ^ 4),
{
    assert(block(data, 0) =~= data);
    assert(tail(data).len() == 0);
    assert(absorb_blocks(data, seed, 1) == spec_mix_block(seed, le_word(data))) by {
        reveal_with_fuel(absorb_blocks, 2);
    }
}

/// Absorbing the same blocks keeps distinct states distinct.
pub proof fn lemma_absorb_blocks_injective(data: Seq<u8>, seed1: u32, seed2: u32, n: nat)
    requires
        absorb_blocks(data, seed1, n) == absorb_blocks(data, seed2, n),
    ensures
        seed1 == seed2,
    decreases n,
{
    if n > 0 {
        let m = (n - 1) as nat;
        lemma_mix_block_injective(
            absorb_blocks(data, seed1, m),
            absorb_blocks(data, seed2, m),
            le_word(block(data, n - 1)),
        );
        lemma_absorb_blocks_injective(data, seed1, seed2, m);
    }
}

/// For every byte string the hash is one-to-one in the seed: two distinct
/// seeds never give the same hash of the same string.
pub proof fn lemma_seed_injective(data: Seq<u8>, seed1: u32, seed2: u32)
    requires
        seed1 != seed2,
    ensures
        spec_murmur3_32(data, seed1) != spec_murmur3_32(data, seed2),
{
    let len = wrap32(data.len() as int);
    let b1 = absorb_blocks(data, seed1, block_count(data));
    let b2 = absorb_blocks(data, seed2, block_count(data));
    let t1 = absorb_tail(b1, tail(data));
    let t2 = absorb_tail(b2, tail(data));
    if spec_murmur3_32(data, seed1) == spec_murmur3_32(data, seed2) {
        lemma_fmix32_injective(t1 ^ len, t2 ^ len);
        assert(t1 == t2) by (bit_vector)
            requires
                t1 ^ len == t2 ^ len,
        ;
        if tail(data).len() > 0 {
            lemma_mix_tail_injective(b1, b2, le_word(tail(data)));
        }
        lemma_absorb_blocks_injective(data, seed1, seed2, block_count(data));
    }
}

/// The seed matters: some string has different hashes under two seeds.
pub proof fn lemma_seed_sensitive()
    ensures
        exists|data: Seq<u8>, seed1: u32, seed2: u32|
            seed1 != seed2 && spec_murmur3_32(data, seed1) != spec_murmur3_32(data, seed2),
{
    lemma_seed_injective(Seq::<u8>::empty(), 0, 1);
}

} // verus!
