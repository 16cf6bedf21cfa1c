use cryptix_miner::bits::{count_ones32, rotl32, rotl64, rotl8, rotr32, rotr8};
use cryptix_miner::xoshiro::XoShiRo256PlusPlus;

fn counting_bytes() -> [u8; 32] {
    let mut bytes = [0u8; 32];
    for (i, b) in bytes.iter_mut().enumerate() {
        *b = i as u8;
    }
    bytes
}

#[test]
fn hash_reads_little_endian_words() {
    let h = cryptix_miner::hash::Hash::from_le_bytes(counting_bytes());
    assert_eq!(h.to_le_u64()[0], 0x0706050403020100);
    assert_eq!(h.to_le_u64()[3], 0x1f1e1d1c1b1a1918);
    assert_eq!(h, cryptix_miner::hash::Hash::new(h.to_le_u64()));
}

#[test]
fn hash_bytes_roundtrip() {
    let b = counting_bytes();
    assert_eq!(cryptix_miner::hash::Hash::from_le_bytes(b).to_le_bytes(), b);
    let h = cryptix_miner::hash::Hash::new([1, u64::MAX, 0x0123456789abcdef, 42]);
    assert_eq!(cryptix_miner::hash::Hash::from_le_bytes(h.to_le_bytes()), h);
}

#[test]
fn xoshiro_outputs() {
    let mut g = XoShiRo256PlusPlus::new(cryptix_miner::hash::Hash::from_le_bytes([42; 32]));
    assert_eq!(g.u64(), 6076574518398440532);
    assert_eq!(g.u64(), 4557430888798830399);
    assert_eq!(g.u64(), 11719107999768421026);
    let mut c = XoShiRo256PlusPlus::new(cryptix_miner::hash::Hash::from_le_bytes(counting_bytes()));
    assert_eq!(c.u64(), 1663256601371677457);
    assert_eq!(c.u64(), 11682512382921186587);
}

#[test]
fn rotations_match_std() {
    for n in 0..40u32 {
        assert_eq!(rotl8(0b1000_0001, n), 0b1000_0001u8.rotate_left(n));
        assert_eq!(rotr8(0b1000_0011, n), 0b1000_0011u8.rotate_right(n));
        assert_eq!(rotl32(0x8000_0001, n), 0x8000_0001u32.rotate_left(n));
        assert_eq!(rotr32(0x8000_0003, n), 0x8000_0003u32.rotate_right(n));
        assert_eq!(rotl64(0x8000_0000_0000_0001, n), 0x8000_0000_0000_0001u64.rotate_left(n));
    }
    assert_eq!(rotl8(0b1000_0001, 1), 0b0000_0011);
}

#[test]
fn count_ones_values() {
    assert_eq!(count_ones32(0), 0);
    assert_eq!(count_ones32(0xF0F0), 8);
    assert_eq!(count_ones32(u32::MAX), 32);
}

#[test]
fn array_from_fn_indexes() {
    let a: [usize; 5] = cryptix_miner::arrays::array_from_fn(|i| i * i);
    assert_eq!(a, [0, 1, 4, 9, 16]);
}
