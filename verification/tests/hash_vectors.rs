//! Fixed inputs with their published Murmur3 hashes.

use mash_rs::murmur3_32;

#[test]
fn empty_input_with_zero_seed_is_zero() {
    assert_eq!(murmur3_32(b"", 0), 0x0000_0000);
}

#[test]
fn empty_input_with_other_seeds() {
    assert_eq!(murmur3_32(b"", 1), 0x514e_28b7);
    assert_eq!(murmur3_32(b"", 0xffff_ffff), 0x81f1_6f39);
}

#[test]
fn hello_world_with_seed_42() {
    assert_eq!(murmur3_32(b"hello world", 42), 0xea0c_9bf9);
}

#[test]
fn hello_world_with_neighbouring_seeds() {
    assert_eq!(murmur3_32(b"hello world", 0), 0x5e92_8f0f);
    assert_eq!(murmur3_32(b"hello world", 43), 0x1e49_cadb);
}

#[test]
fn text_vectors() {
    assert_eq!(murmur3_32(b"test", 0), 0xba6b_d213);
    assert_eq!(murmur3_32(b"hello", 0), 0x248b_fa47);
    assert_eq!(murmur3_32(b"Hello, world!", 1234), 0xfaf6_cdb3);
    assert_eq!(murmur3_32(b"Hello, world!", 0x9747_b28c), 0x2488_4cba);
    assert_eq!(
        murmur3_32(b"The quick brown fox jumps over the lazy dog", 0x9747_b28c),
        0x2fa8_26cd
    );
}

#[test]
fn one_block_without_tail() {
    assert_eq!(murmur3_32(b"abcd", 42), 0xe860_e5cc);
    assert_eq!(murmur3_32(b"abcd", 0), 0x43ed_676a);
    assert_eq!(murmur3_32(b"abcd", 0x9747_b28c), 0xf047_8627);
    assert_eq!(murmur3_32(b"aaaa", 0x9747_b28c), 0x5a97_808a);
}

#[test]
fn one_block_with_one_byte_tail() {
    assert_eq!(murmur3_32(b"abcde", 42), 0xaeda_2bf0);
    assert_eq!(murmur3_32(b"abcde", 0), 0xe89b_9af6);
}

#[test]
fn one_block_with_two_byte_tail() {
    assert_eq!(murmur3_32(b"abcdef", 42), 0x91fd_060b);
    assert_eq!(murmur3_32(b"abcdef", 0), 0x6181_c085);
}

#[test]
fn one_block_with_three_byte_tail() {
    assert_eq!(murmur3_32(b"abcdefg", 42), 0x6a2a_f619);
    assert_eq!(murmur3_32(b"abcdefg", 0), 0x883c_9b06);
}

#[test]
fn two_blocks_without_tail() {
    assert_eq!(murmur3_32(b"abcdefgh", 42), 0xd008_9d49);
    assert_eq!(murmur3_32(b"abcdefgh", 0), 0x49dd_ccc4);
}

#[test]
fn tail_only_of_one_byte() {
    assert_eq!(murmur3_32(&[0x21], 0), 0x7266_1cf4);
    assert_eq!(murmur3_32(b"a", 0x9747_b28c), 0x7fa0_9ea6);
    assert_eq!(murmur3_32(&[0x00], 0), 0x514e_28b7);
}

#[test]
fn tail_only_of_two_bytes() {
    assert_eq!(murmur3_32(&[0x21, 0x43], 0), 0xa0f7_b07a);
    assert_eq!(murmur3_32(b"ab", 0x9747_b28c), 0x7487_5592);
    assert_eq!(murmur3_32(b"aa", 0x9747_b28c), 0x5d21_1726);
    assert_eq!(murmur3_32(&[0x00, 0x00], 0), 0x30f4_c306);
}

#[test]
fn tail_only_of_three_bytes() {
    assert_eq!(murmur3_32(&[0x21, 0x43, 0x65], 0), 0x7e4a_8634);
    assert_eq!(murmur3_32(b"abc", 0x9747_b28c), 0xc84a_62dd);
    assert_eq!(murmur3_32(b"aaa", 0x9747_b28c), 0x283e_0130);
    assert_eq!(murmur3_32(&[0x00, 0x00, 0x00], 0), 0x85f0_b427);
}

#[test]
fn blocks_are_little_endian() {
    assert_eq!(murmur3_32(&[0x21, 0x43, 0x65, 0x87], 0), 0xf55b_516b);
    assert_eq!(murmur3_32(&[0x21, 0x43, 0x65, 0x87], 0x5082_edee), 0x2362_f9de);
    assert_ne!(
        murmur3_32(&[0x21, 0x43, 0x65, 0x87], 0),
        murmur3_32(&[0x87, 0x65, 0x43, 0x21], 0)
    );
}

#[test]
fn tail_bytes_are_little_endian() {
    assert_eq!(murmur3_32(&[0x80], 0), 0x0feb_9e1d);
    assert_eq!(murmur3_32(&[0x00, 0x80], 0), 0x5c08_be95);
    assert_eq!(murmur3_32(&[0x00, 0x00, 0x80], 0), 0xcd4f_750d);
    assert_eq!(murmur3_32(&[0x00, 0x00, 0x00, 0x80], 0), 0x9994_d794);
}

#[test]
fn zero_bytes_of_each_length_hash_apart() {
    assert_eq!(murmur3_32(&[0; 4], 0), 0x2362_f9de);
    assert_eq!(murmur3_32(&[0; 5], 0), 0x2d4d_b2f0);
    assert_eq!(murmur3_32(&[0; 8], 0), 0x6385_2afc);
}

#[test]
fn products_wrap_modulo_two_to_the_32() {
    // 0xffff_ffff * 0xcc9e_2d51 is 0xcc9e_2d50_3361_d2af: only the low half may
    // go on. Keeping the high half would end in 0x0ab9_48a1.
    assert_eq!(murmur3_32(&[0xff; 4], 0), 0x7629_3b50);
    assert_ne!(murmur3_32(&[0xff; 4], 0), 0x0ab9_48a1);
    assert_eq!(murmur3_32(&[0xff; 4], 0xffff_ffff), 0xa5fe_21d3);
    assert_eq!(murmur3_32(&[0xff; 8], 0xffff_ffff), 0xc6fd_26e5);
    assert_eq!(murmur3_32(&[0xff; 7], 0xffff_ffff), 0x2ed1_3832);
}

#[test]
fn tails_of_high_bytes() {
    assert_eq!(murmur3_32(&[0xff; 3], 0), 0xbf12_a026);
    assert_eq!(murmur3_32(&[0xff; 2], 0), 0x8619_621f);
    assert_eq!(murmur3_32(&[0xff; 1], 0), 0xfd6c_f10d);
}

#[test]
fn long_input_of_each_tail_length() {
    let data: Vec<u8> = (0..1000u32).map(|i| ((i * 7 + 3) & 0xff) as u8).collect();
    assert_eq!(murmur3_32(&data, 42), 0x2050_221c);
    assert_eq!(murmur3_32(&data[..999], 42), 0x17eb_1088);
    assert_eq!(murmur3_32(&data[..998], 42), 0x21c6_95a1);
    assert_eq!(murmur3_32(&data[..997], 42), 0xa14d_f506);
}
