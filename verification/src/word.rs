//! Arithmetic on 32-bit words: reduction modulo 2^32, circular rotation and
//! little-endian decoding of up to four bytes.

use vstd::prelude::*;

verus! {

/// The residue of `n` modulo 2^32, as a 32-bit word.
pub open spec fn wrap32(n: int) -> u32 {
    (n % 0x1_0000_0000) as u32
}

/// The word `x` rotated left by `r` bit positions, the positions taken
/// modulo 32: the bits that leave at the top come back in at the bottom.
pub open spec fn spec_rotate_left(x: u32, r: u32) -> u32 {
    let s: u32 = r % 32;
    if s == 0 {
        x
    } else {
        (x << s) | (x >> ((32 - s) as u32))
    }
}

/// Rotates `x` left by `r` bit positions, taken modulo 32.
#[verifier::when_used_as_spec(spec_rotate_left)]
pub fn rotate_left(x: u32, r: u32) -> (y: u32)
    ensures
        y == spec_rotate_left(x, r),
{
    let s: u32 = r % 32;
    if s == 0 {
        x
    } else {
        (x << s) | (x >> (32 - s))
    }
}

/// The byte of `bytes` at position `i`, or zero where `bytes` has no such
/// position.
pub open spec fn byte_or_zero(bytes: Seq<u8>, i: int) -> int {
    if 0 <= i < bytes.len() {
        bytes[i] as int
    } else {
        0
    }
}

/// The little-endian value of the first four bytes of `bytes`: the byte at
/// position `i` weighs 256^i, and a byte that `bytes` is too short to hold
/// counts as zero.
pub open spec fn le_word(bytes: Seq<u8>) -> u32 {
    (byte_or_zero(bytes, 0) + 0x100 * byte_or_zero(bytes, 1) + 0x1_0000 * byte_or_zero(bytes, 2)
        + 0x100_0000 * byte_or_zero(bytes, 3)) as u32
}

/// Decodes the `count` bytes of `data` that begin at `start` as one
/// little-endian word, whatever the byte order of the machine.
pub fn load_le(data: &[u8], start: usize, count: usize) -> (k: u32)
    requires
        count <= 4,
        start + count <= data@.len(),
    ensures
        k == le_word(data@.subrange(start as int, start + count)),
{
    let b0: u8 = if count > 0 { data[start] } else { 0 };
    let b1: u8 = if count > 1 { data[start + 1] } else { 0 };
    let b2: u8 = if count > 2 { data[start + 2] } else { 0 };
    let b3: u8 = if count > 3 { data[start + 3] } else { 0 };
    let k: u32 = (b0 as u32) | (b1 as u32) << 8 | (b2 as u32) << 16 | (b3 as u32) << 24;
    proof {
        let picked = data@.subrange(start as int, start + count);
        assert(b0 == byte_or_zero(picked, 0));
        assert(b1 == byte_or_zero(picked, 1));
        assert(b2 == byte_or_zero(picked, 2));
        assert(b3 == byte_or_zero(picked, 3));
        assert(k == b0 + 0x100 * b1 + 0x1_0000 * b2 + 0x100_0000 * b3) by (bit_vector)
            requires
                k == (b0 as u32) | (b1 as u32) << 8 | (b2 as u32) << 16 | (b3 as u32) << 24,
        ;
    }
    k
}

} // verus!
