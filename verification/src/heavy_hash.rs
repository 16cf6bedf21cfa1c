//! The mixing stages of HeavyHash: a matrix-vector product on the nibbles of the
//! pre-PoW hash, an octonion hash, a data-dependent S-box, the anti-FPGA transform
//! and a chain of BLAKE3 hashes.
use vstd::prelude::*;
use crate::anti_fpga::after_comp_byte;
use crate::bits::{rotl32, rotl32_spec, rotl8, rotl8_spec, rotr32, rotr32_spec, rotr8, rotr8_spec};
use crate::matrix::dot;
use crate::matrix::Matrix;
use crate::octonion::oct_hash_rounds;

verus! {

/// The 64 nibbles of 32 bytes, the high nibble of each byte first.
pub open spec fn nibbles(hb: Seq<u8>) -> Seq<int> {
    Seq::new(
        64,
        |j: int|
            if j % 2 == 0 {
                (hb[j / 2] >> 4u8) as int
            } else {
                (hb[j / 2] & 0x0Fu8) as int
            },
    )
}

/// The product of row `r` of the matrix with the nibble vector.
pub open spec fn row_sum(m: Matrix, r: int, nib: Seq<int>) -> u32 {
    dot(m.rows()[r], nib, 64) as u32
}

pub open spec fn a_nibble(s1: u32, s2: u32, s3: u32) -> u32 {
    (s1 & 0xFu32) ^ ((s2 >> 4u32) & 0xFu32) ^ ((s3 >> 8u32) & 0xFu32) ^ ((s1.wrapping_mul(0xABCDu32)
        >> 12u32) & 0xFu32) ^ ((s1.wrapping_mul(0x1234u32) >> 8u32) & 0xFu32) ^ ((s2.wrapping_mul(
        0x5678u32,
    ) >> 16u32) & 0xFu32) ^ ((s3.wrapping_mul(0x9ABCu32) >> 4u32) & 0xFu32) ^ ((rotl32_spec(s1, 3)
        & 0xFu32) ^ (rotr32_spec(s3, 5) & 0xFu32))
}

pub open spec fn b_nibble(s1: u32, s2: u32, s4: u32) -> u32 {
    (s2 & 0xFu32) ^ ((s1 >> 4u32) & 0xFu32) ^ ((s4 >> 8u32) & 0xFu32) ^ ((s2.wrapping_mul(0xDCBAu32)
        >> 14u32) & 0xFu32) ^ ((s2.wrapping_mul(0x8765u32) >> 10u32) & 0xFu32) ^ ((s1.wrapping_mul(
        0x4321u32,
    ) >> 6u32) & 0xFu32) ^ ((rotl32_spec(s4, 2) ^ rotr32_spec(s1, 1)) & 0xFu32)
}

pub open spec fn c_nibble(s1: u32, s2: u32, s3: u32, s4: u32) -> u32 {
    (s3 & 0xFu32) ^ ((s2 >> 4u32) & 0xFu32) ^ ((s2 >> 8u32) & 0xFu32) ^ ((s3.wrapping_mul(0xF135u32)
        >> 10u32) & 0xFu32) ^ ((s3.wrapping_mul(0x2468u32) >> 12u32) & 0xFu32) ^ ((s4.wrapping_mul(
        0xACEFu32,
    ) >> 8u32) & 0xFu32) ^ ((s2.wrapping_mul(0x1357u32) >> 4u32) & 0xFu32) ^ ((rotl32_spec(s3, 5)
        & 0xFu32) ^ (rotr32_spec(s1, 7) & 0xFu32))
}

pub open spec fn d_nibble(s1: u32, s2: u32, s3: u32, s4: u32) -> u32 {
    (s1 & 0xFu32) ^ ((s4 >> 4u32) & 0xFu32) ^ ((s1 >> 8u32) & 0xFu32) ^ ((s4.wrapping_mul(0x57A3u32)
        >> 6u32) & 0xFu32) ^ ((s3.wrapping_mul(0xD4E3u32) >> 12u32) & 0xFu32) ^ ((s1.wrapping_mul(
        0x9F8Bu32,
    ) >> 10u32) & 0xFu32) ^ ((rotl32_spec(s4, 4) ^ s1.wrapping_add(s2)) & 0xFu32)
}

/// Byte `i` of the product, before it is XORed with the hash: the sums of rows `2i`,
/// `2i + 1` and `i + 2` with the nibbles, folded into two nibbles.
pub open spec fn product_byte(m: Matrix, hb: Seq<u8>, i: int) -> u8 {
    let nib = nibbles(hb);
    let s1 = row_sum(m, 2 * i, nib);
    let s2 = row_sum(m, 2 * i + 1, nib);
    let s3 = row_sum(m, i + 2, nib);
    let s4 = row_sum(m, i + 3, nib);
    ((a_nibble(s1, s2, s3) << 4u32) | b_nibble(s1, s2, s4)) as u8
}

/// Byte `i` of the nibble product, before it is XORed with the hash.
pub open spec fn nibble_product_byte(m: Matrix, hb: Seq<u8>, i: int) -> u8 {
    let nib = nibbles(hb);
    let s1 = row_sum(m, 2 * i, nib);
    let s2 = row_sum(m, 2 * i + 1, nib);
    let s3 = row_sum(m, i + 2, nib);
    let s4 = row_sum(m, i + 3, nib);
    ((c_nibble(s1, s2, s3, s4) << 4u32) | d_nibble(s1, s2, s3, s4)) as u8
}

/// The product XORed with the hash, before the octonion stage.
pub open spec fn product_before_oct(m: Matrix, hb: Seq<u8>) -> Seq<u8> {
    Seq::new(32, |i: int| product_byte(m, hb, i) ^ hb[i])
}

/// The nibble product XORed with the hash.
pub open spec fn nibble_product(m: Matrix, hb: Seq<u8>) -> Seq<u8> {
    Seq::new(32, |i: int| nibble_product_byte(m, hb, i) ^ hb[i])
}

/// Byte `i` of the octonion hash `oct`, eight bytes from each word, low byte first.
pub open spec fn oct_byte(oct: Seq<i64>, i: int) -> u8 {
    ((oct[i / 8] >> (8 * (i % 8)) as i64) & 0xFFi64) as u8
}

/// The product after the octonion stage: each byte XORed with the matching byte of the
/// octonion hash of the product.
pub open spec fn product_after_oct(pbo: Seq<u8>) -> Seq<u8> {
    let oct = oct_hash_rounds(pbo, 24);
    Seq::new(32, |i: int| pbo[i] ^ oct_byte(oct, i))
}


/// The largest value of a product of a matrix entry with a nibble.
pub open spec fn term_bound() -> int {
    983025int
}

impl Matrix {
    fn mix_a(s1: u32, s2: u32, s3: u32) -> (r: u32)
        ensures
            r == a_nibble(s1, s2, s3),
    {
        (s1 & 0xF) ^ ((s2 >> 4) & 0xF) ^ ((s3 >> 8) & 0xF) ^ ((s1.wrapping_mul(0xABCD) >> 12) & 0xF)
            ^ ((s1.wrapping_mul(0x1234) >> 8) & 0xF) ^ ((s2.wrapping_mul(0x5678) >> 16) & 0xF) ^ ((
        s3.wrapping_mul(0x9ABC) >> 4) & 0xF) ^ ((rotl32(s1, 3) & 0xF) ^ (rotr32(s3, 5) & 0xF))
    }

    fn mix_b(s1: u32, s2: u32, s4: u32) -> (r: u32)
        ensures
            r == b_nibble(s1, s2, s4),
    {
        (s2 & 0xF) ^ ((s1 >> 4) & 0xF) ^ ((s4 >> 8) & 0xF) ^ ((s2.wrapping_mul(0xDCBA) >> 14) & 0xF)
            ^ ((s2.wrapping_mul(0x8765) >> 10) & 0xF) ^ ((s1.wrapping_mul(0x4321) >> 6) & 0xF) ^ ((
        rotl32(s4, 2) ^ rotr32(s1, 1)) & 0xF)
    }

    fn mix_c(s1: u32, s2: u32, s3: u32, s4: u32) -> (r: u32)
        ensures
            r == c_nibble(s1, s2, s3, s4),
    {
        (s3 & 0xF) ^ ((s2 >> 4) & 0xF) ^ ((s2 >> 8) & 0xF) ^ ((s3.wrapping_mul(0xF135) >> 10) & 0xF)
            ^ ((s3.wrapping_mul(0x2468) >> 12) & 0xF) ^ ((s4.wrapping_mul(0xACEF) >> 8) & 0xF) ^ ((
        s2.wrapping_mul(0x1357) >> 4) & 0xF) ^ ((rotl32(s3, 5) & 0xF) ^ (rotr32(s1, 7) & 0xF))
    }

    fn mix_d(s1: u32, s2: u32, s3: u32, s4: u32) -> (r: u32)
        ensures
            r == d_nibble(s1, s2, s3, s4),
    {
        (s1 & 0xF) ^ ((s4 >> 4) & 0xF) ^ ((s1 >> 8) & 0xF) ^ ((s4.wrapping_mul(0x57A3) >> 6) & 0xF)
            ^ ((s3.wrapping_mul(0xD4E3) >> 12) & 0xF) ^ ((s1.wrapping_mul(0x9F8B) >> 10) & 0xF) ^ ((
        rotl32(s4, 4) ^ s1.wrapping_add(s2)) & 0xF)
    }

    /// The product of row `r` with the nibbles.
    fn row_times_nibbles(&self, r: usize, nib: &[u8; 64], Ghost(nv): Ghost<Seq<int>>) -> (s: u32)
        requires
            r < 64,
            nv.len() == 64,
            forall|j: int| 0 <= j < 64 ==> #[trigger] nib[j] as int == nv[j] && nib[j] < 16,
        ensures
            s == row_sum(*self, r as int, nv),
            s as int == dot(self.rows()[r as int], nv, 64),
    {
        let ghost row = self.rows()[r as int];
        let mut sum: u32 = 0;
        let mut j: usize = 0;
        while j < 64
            invariant
                r < 64,
                j <= 64,
                row == self.rows()[r as int],
                nv.len() == 64,
                forall|k: int| 0 <= k < 64 ==> #[trigger] nib[k] as int == nv[k] && nib[k] < 16,
                sum as int == dot(row, nv, j as nat),
                sum <= j * term_bound(),
            decreases 64 - j,
        {
            let elem = nib[j] as u32;
            let entry = self.0[r][j] as u32;
            assert(entry * elem <= term_bound()) by (nonlinear_arith)
                requires
                    entry <= 65535,
                    elem < 16,
            ;
            assert(row[j as int] == entry as int);
            sum = sum + entry * elem;
            j = j + 1;
        }
        sum
    }

    /// The product and the nibble product, each XORed with the hash bytes.
    pub fn matrix_products(&self, hash_bytes: &[u8; 32]) -> (r: ([u8; 32], [u8; 32]))
        ensures
            r.0@ == product_before_oct(*self, hash_bytes@),
            r.1@ == nibble_product(*self, hash_bytes@),
    {
        let ghost nv = nibbles(hash_bytes@);
        let mut nib = [0u8; 64];
        let mut i: usize = 0;
        while i < 32
            invariant
                i <= 32,
                nv == nibbles(hash_bytes@),
                forall|j: int| 0 <= j < 2 * i ==> #[trigger] nib[j] as int == nv[j] && nib[j] < 16,
            decreases 32 - i,
        {
            let byte = hash_bytes[i];
            assert(byte >> 4u8 < 16 && byte & 0x0Fu8 < 16) by (bit_vector);
            nib[2 * i] = byte >> 4;
            nib[2 * i + 1] = byte & 0x0F;
            i = i + 1;
        }
        let mut product = [0u8; 32];
        let mut nibble_product_bytes = [0u8; 32];
        let mut i: usize = 0;
        while i < 32
            invariant
                i <= 32,
                nv == nibbles(hash_bytes@),
                forall|j: int| 0 <= j < 64 ==> #[trigger] nib[j] as int == nv[j] && nib[j] < 16,
                forall|k: int|
                    0 <= k < i ==> #[trigger] product[k] == product_byte(*self, hash_bytes@, k),
                forall|k: int|
                    0 <= k < i ==> #[trigger] nibble_product_bytes[k] == nibble_product_byte(
                        *self,
                        hash_bytes@,
                        k,
                    ),
            decreases 32 - i,
        {
            let sum1 = self.row_times_nibbles(2 * i, &nib, Ghost(nv));
            let sum2 = self.row_times_nibbles(2 * i + 1, &nib, Ghost(nv));
            let sum3 = self.row_times_nibbles(i + 2, &nib, Ghost(nv));
            let sum4 = self.row_times_nibbles(i + 3, &nib, Ghost(nv));
            let a_nib = Self::mix_a(sum1, sum2, sum3);
            let b_nib = Self::mix_b(sum1, sum2, sum4);
            let c_nib = Self::mix_c(sum1, sum2, sum3, sum4);
            let d_nib = Self::mix_d(sum1, sum2, sum3, sum4);
            nibble_product_bytes[i] = ((c_nib << 4) | d_nib) as u8;
            product[i] = ((a_nib << 4) | b_nib) as u8;
            i = i + 1;
        }
        let mut i: usize = 0;
        while i < 32
            invariant
                i <= 32,
                forall|k: int|
                    0 <= k < i ==> #[trigger] product[k] == product_byte(*self, hash_bytes@, k)
                        ^ hash_bytes[k],
                forall|k: int|
                    i <= k < 32 ==> #[trigger] product[k] == product_byte(*self, hash_bytes@, k),
                forall|k: int|
                    0 <= k < i ==> #[trigger] nibble_product_bytes[k] == nibble_product_byte(
                        *self,
                        hash_bytes@,
                        k,
                    ) ^ hash_bytes[k],
                forall|k: int|
                    i <= k < 32 ==> #[trigger] nibble_product_bytes[k] == nibble_product_byte(
                        *self,
                        hash_bytes@,
                        k,
                    ),
            decreases 32 - i,
        {
            product[i] = product[i] ^ hash_bytes[i];
            nibble_product_bytes[i] = nibble_product_bytes[i] ^ hash_bytes[i];
            i = i + 1;
        }
        assert(product@ =~= product_before_oct(*self, hash_bytes@));
        assert(nibble_product_bytes@ =~= nibble_product(*self, hash_bytes@));
        (product, nibble_product_bytes)
    }

    /// XORs each byte of the product with the matching byte of its octonion hash.
    pub fn apply_octonion(product_before_oct: &[u8; 32]) -> (product: [u8; 32])
        ensures
            product@ == product_after_oct(product_before_oct@),
    {
        let octonion_result = Self::octonion_hash(product_before_oct);
        let mut product = *product_before_oct;
        let mut i: usize = 0;
        while i < 32
            invariant
                i <= 32,
                octonion_result@ == oct_hash_rounds(product_before_oct@, 24),
                forall|k: int|
                    0 <= k < i ==> #[trigger] product[k] == product_before_oct[k] ^ oct_byte(
                        octonion_result@,
                        k,
                    ),
                forall|k: int| i <= k < 32 ==> #[trigger] product[k] == product_before_oct[k],
            decreases 32 - i,
        {
            let oct_value = octonion_result[i / 8];
            let oct_value_u8 = ((oct_value >> (8 * (i % 8))) & 0xFF) as u8;
            product[i] ^= oct_value_u8;
            i = i + 1;
        }
        assert(product@ =~= product_after_oct(product_before_oct@));
        product
    }
}


/// The array that S-box entry `i` reads from, and the two bytes whose rotations pick
/// the position it reads: `p` is the product after the octonion stage, `hb` the hash,
/// `np` the nibble product and `pbo` the product before the octonion stage.
pub open spec fn sbox_source(i: u8, p: Seq<u8>, hb: Seq<u8>, np: Seq<u8>, pbo: Seq<u8>) -> (
    Seq<u8>,
    u8,
    u8,
) {
    if i < 16 {
        (p, (np[3] ^ 0x4Fu8).wrapping_mul(3u8), (hb[2] ^ 0xD3u8).wrapping_mul(5u8))
    } else if i < 32 {
        (hb, (p[7] ^ 0xA6u8).wrapping_mul(2u8), (np[5] ^ 0x5Bu8).wrapping_mul(7u8))
    } else if i < 48 {
        (np, (pbo[1] ^ 0x9Cu8).wrapping_mul(9u8), (p[0] ^ 0x8Eu8).wrapping_mul(3u8))
    } else if i < 64 {
        (hb, (p[6] ^ 0x71u8).wrapping_mul(4u8), (pbo[3] ^ 0x2Fu8).wrapping_mul(5u8))
    } else if i < 80 {
        (pbo, (np[4] ^ 0xB2u8).wrapping_mul(3u8), (hb[7] ^ 0x6Du8).wrapping_mul(7u8))
    } else if i < 96 {
        (hb, (p[0] ^ 0x58u8).wrapping_mul(6u8), (np[1] ^ 0xEEu8).wrapping_mul(9u8))
    } else if i < 112 {
        (p, (pbo[2] ^ 0x37u8).wrapping_mul(2u8), (hb[6] ^ 0x44u8).wrapping_mul(6u8))
    } else if i < 128 {
        (hb, (p[5] ^ 0x1Au8).wrapping_mul(5u8), (hb[4] ^ 0x7Cu8).wrapping_mul(8u8))
    } else if i < 144 {
        (pbo, (np[3] ^ 0x93u8).wrapping_mul(7u8), (p[2] ^ 0xAFu8).wrapping_mul(3u8))
    } else if i < 160 {
        (hb, (p[7] ^ 0x29u8).wrapping_mul(9u8), (np[5] ^ 0xDCu8).wrapping_mul(2u8))
    } else if i < 176 {
        (np, (pbo[1] ^ 0x4Eu8).wrapping_mul(4u8), (hb[0] ^ 0x8Bu8).wrapping_mul(3u8))
    } else if i < 192 {
        (hb, (np[6] ^ 0xF3u8).wrapping_mul(5u8), (pbo[3] ^ 0x62u8).wrapping_mul(8u8))
    } else if i < 208 {
        (pbo, (p[4] ^ 0xB7u8).wrapping_mul(6u8), (p[7] ^ 0x15u8).wrapping_mul(2u8))
    } else if i < 224 {
        (hb, (p[0] ^ 0x2Du8).wrapping_mul(8u8), (pbo[1] ^ 0xC8u8).wrapping_mul(7u8))
    } else if i < 240 {
        (p, (pbo[2] ^ 0x6Fu8).wrapping_mul(3u8), (np[6] ^ 0x99u8).wrapping_mul(9u8))
    } else {
        (hb, (np[5] ^ 0xE1u8).wrapping_mul(7u8), (hb[4] ^ 0x3Bu8).wrapping_mul(5u8))
    }
}

/// The byte that S-box entry `i` XORs into what it reads.
pub open spec fn sbox_value(i: u8, p: Seq<u8>, hb: Seq<u8>, np: Seq<u8>, pbo: Seq<u8>) -> u8 {
    if i < 16 {
        (p[(i as int) % 32].wrapping_mul(0x03u8).wrapping_add(i.wrapping_mul(0xAAu8))) & 0xFFu8
    } else if i < 32 {
        (hb[((i as int) - 16) % 32].wrapping_mul(0x05u8).wrapping_add(((i - 16) as u8).wrapping_mul(0xBBu8))) & 0xFFu8
    } else if i < 48 {
        (pbo[((i as int) - 32) % 32].wrapping_mul(0x07u8).wrapping_add(((i - 32) as u8).wrapping_mul(0xCCu8))) & 0xFFu8
    } else if i < 64 {
        (np[((i as int) - 48) % 32].wrapping_mul(0x0Fu8).wrapping_add(((i - 48) as u8).wrapping_mul(0xDDu8))) & 0xFFu8
    } else if i < 80 {
        (p[((i as int) - 64) % 32].wrapping_mul(0x11u8).wrapping_add(((i - 64) as u8).wrapping_mul(0xEEu8))) & 0xFFu8
    } else if i < 96 {
        (hb[((i as int) - 80) % 32].wrapping_mul(0x13u8).wrapping_add(((i - 80) as u8).wrapping_mul(0xFFu8))) & 0xFFu8
    } else if i < 112 {
        (pbo[((i as int) - 96) % 32].wrapping_mul(0x17u8).wrapping_add(((i - 96) as u8).wrapping_mul(0x11u8))) & 0xFFu8
    } else if i < 128 {
        (np[((i as int) - 112) % 32].wrapping_mul(0x19u8).wrapping_add(((i - 112) as u8).wrapping_mul(0x22u8))) & 0xFFu8
    } else if i < 144 {
        (p[((i as int) - 128) % 32].wrapping_mul(0x1Du8).wrapping_add(((i - 128) as u8).wrapping_mul(0x33u8))) & 0xFFu8
    } else if i < 160 {
        (hb[((i as int) - 144) % 32].wrapping_mul(0x1Fu8).wrapping_add(((i - 144) as u8).wrapping_mul(0x44u8))) & 0xFFu8
    } else if i < 176 {
        (pbo[((i as int) - 160) % 32].wrapping_mul(0x23u8).wrapping_add(((i - 160) as u8).wrapping_mul(0x55u8))) & 0xFFu8
    } else if i < 192 {
        (np[((i as int) - 176) % 32].wrapping_mul(0x29u8).wrapping_add(((i - 176) as u8).wrapping_mul(0x66u8))) & 0xFFu8
    } else if i < 208 {
        (p[((i as int) - 192) % 32].wrapping_mul(0x2Fu8).wrapping_add(((i - 192) as u8).wrapping_mul(0x77u8))) & 0xFFu8
    } else if i < 224 {
        (hb[((i as int) - 208) % 32].wrapping_mul(0x31u8).wrapping_add(((i - 208) as u8).wrapping_mul(0x88u8))) & 0xFFu8
    } else if i < 240 {
        (pbo[((i as int) - 224) % 32].wrapping_mul(0x37u8).wrapping_add(((i - 224) as u8).wrapping_mul(0x99u8))) & 0xFFu8
    } else {
        (np[((i as int) - 240) % 32].wrapping_mul(0x3Fu8).wrapping_add(((i - 240) as u8).wrapping_mul(0xAAu8))) & 0xFFu8
    }
}

/// S-box entry `i` before the update rounds.
pub open spec fn sbox_entry(i: u8, p: Seq<u8>, hb: Seq<u8>, np: Seq<u8>, pbo: Seq<u8>) -> u8 {
    let src = sbox_source(i, p, hb, np, pbo);
    let lshift = ((p[((i as int) + 1) % 32] as u32 + i as u32) % 8) as u32;
    let rshift = ((hb[((i as int) + 2) % 32] as u32 + i as u32) % 8) as u32;
    let index = ((i as int) + rotl8_spec(src.1, lshift) as int + rotr8_spec(src.2, rshift) as int) % 32;
    src.0[index] ^ sbox_value(i, p, hb, np, pbo)
}

/// The S-box before the update rounds.
pub open spec fn initial_sbox(p: Seq<u8>, hb: Seq<u8>, np: Seq<u8>, pbo: Seq<u8>) -> Seq<u8> {
    Seq::new(256, |k: int| sbox_entry(k as u8, p, hb, np, pbo))
}

impl Matrix {
    fn sbox_entry(
        i: u8,
        product: &[u8; 32],
        hash_bytes: &[u8; 32],
        nibble_product: &[u8; 32],
        product_before_oct: &[u8; 32],
    ) -> (v: u8)
        ensures
            v == sbox_entry(i, product@, hash_bytes@, nibble_product@, product_before_oct@),
    {
        let (source_array, rotate_left_val, rotate_right_val) =     if i < 16 {
                (product, (nibble_product[3] ^ 0x4F).wrapping_mul(3) as u8, (hash_bytes[2] ^ 0xD3).wrapping_mul(5) as u8)
            } else if i < 32 {
                (hash_bytes, (product[7] ^ 0xA6).wrapping_mul(2) as u8, (nibble_product[5] ^ 0x5B).wrapping_mul(7) as u8)
            } else if i < 48 {
                (nibble_product, (product_before_oct[1] ^ 0x9C).wrapping_mul(9) as u8, (product[0] ^ 0x8E).wrapping_mul(3) as u8)
            } else if i < 64 {
                (hash_bytes, (product[6] ^ 0x71).wrapping_mul(4) as u8, (product_before_oct[3] ^ 0x2F).wrapping_mul(5) as u8)
            } else if i < 80 {
                (product_before_oct, (nibble_product[4] ^ 0xB2).wrapping_mul(3) as u8, (hash_bytes[7] ^ 0x6D).wrapping_mul(7) as u8)
            } else if i < 96 {
                (hash_bytes, (product[0] ^ 0x58).wrapping_mul(6) as u8, (nibble_product[1] ^ 0xEE).wrapping_mul(9) as u8)
            } else if i < 112 {
                (product, (product_before_oct[2] ^ 0x37).wrapping_mul(2) as u8, (hash_bytes[6] ^ 0x44).wrapping_mul(6) as u8)
            } else if i < 128 {
                (hash_bytes, (product[5] ^ 0x1A).wrapping_mul(5) as u8, (hash_bytes[4] ^ 0x7C).wrapping_mul(8) as u8)
            } else if i < 144 {
                (product_before_oct, (nibble_product[3] ^ 0x93).wrapping_mul(7) as u8, (product[2] ^ 0xAF).wrapping_mul(3) as u8)
            } else if i < 160 {
                (hash_bytes, (product[7] ^ 0x29).wrapping_mul(9) as u8, (nibble_product[5] ^ 0xDC).wrapping_mul(2) as u8)
            } else if i < 176 {
                (nibble_product, (product_before_oct[1] ^ 0x4E).wrapping_mul(4) as u8, (hash_bytes[0] ^ 0x8B).wrapping_mul(3) as u8)
            } else if i < 192 {
                (hash_bytes, (nibble_product[6] ^ 0xF3).wrapping_mul(5) as u8, (product_before_oct[3] ^ 0x62).wrapping_mul(8) as u8)
            } else if i < 208 {
                (product_before_oct, (product[4] ^ 0xB7).wrapping_mul(6) as u8, (product[7] ^ 0x15).wrapping_mul(2) as u8)
            } else if i < 224 {
                (hash_bytes, (product[0] ^ 0x2D).wrapping_mul(8) as u8, (product_before_oct[1] ^ 0xC8).wrapping_mul(7) as u8)
            } else if i < 240 {
                (product, (product_before_oct[2] ^ 0x6F).wrapping_mul(3) as u8, (nibble_product[6] ^ 0x99).wrapping_mul(9) as u8)
            } else {
                (hash_bytes, (nibble_product[5] ^ 0xE1).wrapping_mul(7) as u8, (hash_bytes[4] ^ 0x3B).wrapping_mul(5) as u8)
            };
        let value =     if i < 16 {
                (product[i as usize % 32].wrapping_mul(0x03).wrapping_add(i.wrapping_mul(0xAA))) & 0xFF
            } else if i < 32 {
                (hash_bytes[(i - 16) as usize % 32].wrapping_mul(0x05).wrapping_add((i - 16).wrapping_mul(0xBB))) & 0xFF
            } else if i < 48 {
                (product_before_oct[(i - 32) as usize % 32].wrapping_mul(0x07).wrapping_add((i - 32).wrapping_mul(0xCC))) & 0xFF
            } else if i < 64 {
                (nibble_product[(i - 48) as usize % 32].wrapping_mul(0x0F).wrapping_add((i - 48).wrapping_mul(0xDD))) & 0xFF
            } else if i < 80 {
                (product[(i - 64) as usize % 32].wrapping_mul(0x11).wrapping_add((i - 64).wrapping_mul(0xEE))) & 0xFF
            } else if i < 96 {
                (hash_bytes[(i - 80) as usize % 32].wrapping_mul(0x13).wrapping_add((i - 80).wrapping_mul(0xFF))) & 0xFF
            } else if i < 112 {
                (product_before_oct[(i - 96) as usize % 32].wrapping_mul(0x17).wrapping_add((i - 96).wrapping_mul(0x11))) & 0xFF
            } else if i < 128 {
                (nibble_product[(i - 112) as usize % 32].wrapping_mul(0x19).wrapping_add((i - 112).wrapping_mul(0x22))) & 0xFF
            } else if i < 144 {
                (product[(i - 128) as usize % 32].wrapping_mul(0x1D).wrapping_add((i - 128).wrapping_mul(0x33))) & 0xFF
            } else if i < 160 {
                (hash_bytes[(i - 144) as usize % 32].wrapping_mul(0x1F).wrapping_add((i - 144).wrapping_mul(0x44))) & 0xFF
            } else if i < 176 {
                (product_before_oct[(i - 160) as usize % 32].wrapping_mul(0x23).wrapping_add((i - 160).wrapping_mul(0x55))) & 0xFF
            } else if i < 192 {
                (nibble_product[(i - 176) as usize % 32].wrapping_mul(0x29).wrapping_add((i - 176).wrapping_mul(0x66))) & 0xFF
            } else if i < 208 {
                (product[(i - 192) as usize % 32].wrapping_mul(0x2F).wrapping_add((i - 192).wrapping_mul(0x77))) & 0xFF
            } else if i < 224 {
                (hash_bytes[(i - 208) as usize % 32].wrapping_mul(0x31).wrapping_add((i - 208).wrapping_mul(0x88))) & 0xFF
            } else if i < 240 {
                (product_before_oct[(i - 224) as usize % 32].wrapping_mul(0x37).wrapping_add((i - 224).wrapping_mul(0x99))) & 0xFF
            } else {
                (nibble_product[(i - 240) as usize % 32].wrapping_mul(0x3F).wrapping_add((i - 240).wrapping_mul(0xAA))) & 0xFF
            };
        let rotate_left_shift = (product[(i as usize + 1) % 32] as u32 + i as u32) % 8;
        let rotate_right_shift = (hash_bytes[(i as usize + 2) % 32] as u32 + i as u32) % 8;
        let rotation_left = rotl8(rotate_left_val, rotate_left_shift);
        let rotation_right = rotr8(rotate_right_val, rotate_right_shift);
        let index = (i as usize + rotation_left as usize + rotation_right as usize) % 32;
        source_array[index] ^ value
    }

    /// The S-box before the update rounds.
    pub fn build_sbox(
        product: &[u8; 32],
        hash_bytes: &[u8; 32],
        nibble_product: &[u8; 32],
        product_before_oct: &[u8; 32],
    ) -> (sbox: [u8; 256])
        ensures
            sbox@ == initial_sbox(product@, hash_bytes@, nibble_product@, product_before_oct@),
    {
        let mut sbox = [0u8; 256];
        let mut k: usize = 0;
        while k < 256
            invariant
                k <= 256,
                forall|j: int|
                    0 <= j < k ==> #[trigger] sbox[j] == sbox_entry(
                        j as u8,
                        product@,
                        hash_bytes@,
                        nibble_product@,
                        product_before_oct@,
                    ),
            decreases 256 - k,
        {
            sbox[k] = Self::sbox_entry(k as u8, product, hash_bytes, nibble_product, product_before_oct);
            k = k + 1;
        }
        assert(sbox@ =~= initial_sbox(product@, hash_bytes@, nibble_product@, product_before_oct@));
        sbox
    }
}


/// One update of S-box entry `i` holding `v`: `v` XORed with two rotations of itself
/// and with a byte derived from the position, the product `p` and the hash `hb`.
pub open spec fn sbox_update_entry(v: u8, i: int, p: Seq<u8>, hb: Seq<u8>) -> u8 {
    let lshift = ((p[(i + 1) % 32] as u32 + i as u32 + (i * 3) as u32) % 8) as u32;
    let rshift = ((hb[(i + 2) % 32] as u32 + i as u32 + (i * 5) as u32) % 8) as u32;
    let rotated = rotl8_spec(v, lshift) | rotr8_spec(v, rshift);
    let base = (i as u8).wrapping_add(p[(i * 3) % 32] ^ hb[(i * 7) % 32]) ^ 0xA5u8;
    let xor_value = rotl8_spec(base, (i % 8) as u32) ^ 0x55u8;
    v ^ (rotated ^ xor_value)
}

/// The S-box after `n` update rounds.
pub open spec fn sbox_rounds(s: Seq<u8>, p: Seq<u8>, hb: Seq<u8>, n: nat) -> Seq<u8>
    decreases n,
{
    if n == 0 {
        s
    } else {
        let prev = sbox_rounds(s, p, hb, (n - 1) as nat);
        Seq::new(256, |i: int| sbox_update_entry(prev[i], i, p, hb))
    }
}

/// The number of S-box update rounds: one or two, chosen by a byte of the product.
pub open spec fn sbox_round_count(p: Seq<u8>, pbo: Seq<u8>) -> nat {
    (1 + p[((pbo[2] % 8) + 1) as int] % 2) as nat
}

/// The number of BLAKE3 rounds: one to three, chosen by a byte of the product.
pub open spec fn blake_round_count(p: Seq<u8>, pbo: Seq<u8>) -> nat {
    (1 + p[((pbo[5] % 8) + 1) as int] % 3) as nat
}

/// The BLAKE3 hash of `data`, as `blake3::hash` computes it.
pub uninterp spec fn blake3_digest(data: Seq<u8>) -> Seq<u8>;

/// `n` successive BLAKE3 hashes of `x`.
pub open spec fn blake_chain(x: Seq<u8>, n: nat) -> Seq<u8>
    decreases n,
{
    if n == 0 {
        x
    } else {
        blake3_digest(blake_chain(x, (n - 1) as nat))
    }
}

/// Calls `blake3::hash` on 32 bytes. The contract claims only that the 32 bytes returned
/// are `blake3_digest` of the input: the digest depends on the input alone.
#[verifier::external_body]
fn blake3_hash(input: &[u8; 32]) -> (out: [u8; 32])
    ensures
        out@ == blake3_digest(input@),
{
    *blake3::hash(input).as_bytes()
}

/// The values that the mixing computes before the BLAKE3 chain.
pub struct MixState {
    /// The pre-PoW hash as bytes.
    pub hash_bytes: [u8; 32],
    /// The nibble product XORed with the hash.
    pub nibble_product: [u8; 32],
    /// The product XORed with the hash.
    pub product_before_oct: [u8; 32],
    /// The product after the octonion stage.
    pub product: [u8; 32],
    /// The S-box after its update rounds.
    pub sbox: [u8; 256],
    /// The anti-FPGA transform of the product.
    pub after_comp: [u8; 32],
}

/// What the mixing computes of the matrix `m` and the hash bytes `hb` before the chain.
pub open spec fn mix_state_ok(st: MixState, m: Matrix, hb: Seq<u8>) -> bool {
    let pbo = product_before_oct(m, hb);
    let np = nibble_product(m, hb);
    let p = product_after_oct(pbo);
    &&& st.hash_bytes@ == hb
    &&& st.product_before_oct@ == pbo
    &&& st.nibble_product@ == np
    &&& st.product@ == p
    &&& st.sbox@ == sbox_rounds(initial_sbox(p, hb, np, pbo), p, hb, sbox_round_count(p, pbo))
    &&& forall|i: int| 0 <= i < 32 ==> #[trigger] st.after_comp[i] == after_comp_byte(p, i)
}

/// The position in the S-box that byte `i` of the mixed hash looks up: byte `13 i` of one
/// of the four arrays, chosen by `31 i mod 4`, plus bytes of the product and the hash and
/// `41 i`, modulo 256.
pub open spec fn sbox_index(i: int, st: MixState) -> int {
    let r = (i * 31) % 4;
    let ref_array = if r == 0 {
        st.nibble_product@
    } else if r == 1 {
        st.hash_bytes@
    } else if r == 2 {
        st.product@
    } else {
        st.product_before_oct@
    };
    let byte_val = ref_array[(i * 13) % 32] as int;
    (byte_val + st.product@[(i * 31) % 32] as int + st.hash_bytes@[(i * 19) % 32] as int + i * 41)
        % 256
}

/// Byte `i` of the mixed hash: byte `i` of the BLAKE3 chain `b3`, XORed with the S-box entry
/// at `sbox_index(i, st)` and with byte `i` of the anti-FPGA transform.
pub open spec fn final_byte(b3: Seq<u8>, i: int, st: MixState) -> u8 {
    (b3[i] ^ st.sbox@[sbox_index(i, st)]) ^ st.after_comp@[i]
}

/// The 32 bytes that the HeavyHash mixing gives for the matrix `m` and the hash bytes `hb`.
pub open spec fn heavy_mix_bytes(m: Matrix, hb: Seq<u8>, st: MixState) -> Seq<u8> {
    let chained = blake_chain(st.product@, blake_round_count(st.product@, st.product_before_oct@));
    Seq::new(32, |i: int| final_byte(chained, i, st))
}

impl Matrix {
    /// One S-box update round.
    pub fn update_sbox(sbox: &[u8; 256], product: &[u8; 32], hash_bytes: &[u8; 32]) -> (out: [u8; 256])
        ensures
            forall|i: int|
                0 <= i < 256 ==> #[trigger] out[i] == sbox_update_entry(sbox[i], i, product@, hash_bytes@),
    {
        let mut temp_sbox = *sbox;
        let mut i: usize = 0;
        while i < 256
            invariant
                i <= 256,
                forall|k: int|
                    0 <= k < i ==> #[trigger] temp_sbox[k] == sbox_update_entry(
                        sbox[k],
                        k,
                        product@,
                        hash_bytes@,
                    ),
                forall|k: int| i <= k < 256 ==> #[trigger] temp_sbox[k] == sbox[k],
            decreases 256 - i,
        {
            let mut value = temp_sbox[i];
            let rotate_left_shift = (product[(i + 1) % 32] as u32 + i as u32 + (i * 3) as u32) % 8;
            let rotate_right_shift = (hash_bytes[(i + 2) % 32] as u32 + i as u32 + (i * 5) as u32) % 8;
            let rotated_value = rotl8(value, rotate_left_shift) | rotr8(value, rotate_right_shift);
            let base_value = (i as u8).wrapping_add(product[(i * 3) % 32] ^ hash_bytes[(i * 7) % 32])
                ^ 0xA5;
            let shifted_value = rotl8(base_value, (i % 8) as u32);
            let xor_value = shifted_value ^ 0x55;
            value ^= rotated_value ^ xor_value;
            temp_sbox[i] = value;
            i = i + 1;
        }
        temp_sbox
    }

    /// Everything the mixing computes before the BLAKE3 chain.
    pub fn prepare_mix(&self, hash: crate::hash::Hash) -> (st: MixState)
        ensures
            mix_state_ok(st, *self, hash.bytes()),
    {
        let hash_bytes = hash.to_le_bytes();
        let (product_before_oct, nibble_product_bytes) = self.matrix_products(&hash_bytes);
        let product = Self::apply_octonion(&product_before_oct);
        let mut sbox = Self::build_sbox(&product, &hash_bytes, &nibble_product_bytes, &product_before_oct);
        let index = ((product_before_oct[2] % 8) + 1) as usize;
        let iterations = 1 + (product[index] % 2);
        let ghost s0 = sbox@;
        let mut n: u8 = 0;
        while n < iterations
            invariant
                n <= iterations,
                iterations as nat == sbox_round_count(product@, product_before_oct@),
                sbox@ == sbox_rounds(s0, product@, hash_bytes@, n as nat),
            decreases iterations - n,
        {
            let next = Self::update_sbox(&sbox, &product, &hash_bytes);
            assert(next@ =~= sbox_rounds(s0, product@, hash_bytes@, (n + 1) as nat));
            sbox = next;
            n = n + 1;
        }
        let after_comp = Self::compute_after_comp_product(product);
        MixState {
            hash_bytes: hash_bytes,
            nibble_product: nibble_product_bytes,
            product_before_oct: product_before_oct,
            product: product,
            sbox: sbox,
            after_comp: after_comp,
        }
    }

    /// The number of BLAKE3 rounds that the mixing applies to the product.
    pub fn blake_rounds(st: &MixState) -> (n: u8)
        ensures
            n as nat == blake_round_count(st.product@, st.product_before_oct@),
            1 <= n <= 3,
    {
        let index_blake = ((st.product_before_oct[5] % 8) + 1) as usize;
        1 + (st.product[index_blake] % 3)
    }

    /// The last stage of the mixing, applied to the result `chained` of the BLAKE3 chain:
    /// the S-box lookups and the anti-FPGA transform XORed in.
    pub fn finish_mix(chained: [u8; 32], st: &MixState) -> (out: [u8; 32])
        ensures
            out@ == Seq::new(32, |i: int| final_byte(chained@, i, *st)),
    {
        let mut b3 = chained;
        let mut i: usize = 0;
        while i < 32
            invariant
                i <= 32,
                forall|k: int| 0 <= k < i ==> #[trigger] b3[k] == (chained[k] ^ st.sbox@[sbox_index(k, *st)]),
                forall|k: int| i <= k < 32 ==> #[trigger] b3[k] == chained[k],
            decreases 32 - i,
        {
            let ref_array = match (i * 31) % 4 {
                0 => &st.nibble_product,
                1 => &st.hash_bytes,
                2 => &st.product,
                _ => &st.product_before_oct,
            };
            let byte_val = ref_array[(i * 13) % 32] as usize;
            let index = (byte_val + st.product[(i * 31) % 32] as usize + st.hash_bytes[(i * 19) % 32] as usize
                + i * 41) % 256;
            b3[i] ^= st.sbox[index];
            i = i + 1;
        }
        let mut i: usize = 0;
        while i < 32
            invariant
                i <= 32,
                forall|k: int| 0 <= k < i ==> #[trigger] b3[k] == final_byte(chained@, k, *st),
                forall|k: int| i <= k < 32 ==> #[trigger] b3[k] == (chained[k] ^ st.sbox@[sbox_index(k, *st)]),
            decreases 32 - i,
        {
            b3[i] ^= st.after_comp[i];
            i = i + 1;
        }
        assert(b3@ =~= Seq::new(32, |i: int| final_byte(chained@, i, *st)));
        b3
    }

    /// The mixing stage of HeavyHash for this matrix and the pre-PoW hash `hash`: the hash
    /// whose little-endian bytes are what the final heavy hasher absorbs.
    pub fn heavy_mix(&self, hash: crate::hash::Hash) -> (mixed: crate::hash::Hash)
        ensures
            exists|st: MixState|
                #[trigger] mix_state_ok(st, *self, hash.bytes()) && mixed.bytes() == heavy_mix_bytes(
                    *self,
                    hash.bytes(),
                    st,
                ),
    {
        let st = self.prepare_mix(hash);
        let iterations_blake = Self::blake_rounds(&st);
        let mut b3_hash_array = st.product;
        let mut n: u8 = 0;
        while n < iterations_blake
            invariant
                n <= iterations_blake,
                b3_hash_array@ == blake_chain(st.product@, n as nat),
            decreases iterations_blake - n,
        {
            b3_hash_array = blake3_hash(&b3_hash_array);
            n = n + 1;
        }
        let out = Self::finish_mix(b3_hash_array, &st);
        let mixed = crate::hash::Hash::from_le_bytes(out);
        proof {
            crate::hash::lemma_bytes_roundtrip(out@, mixed);
            assert(mixed.bytes() == heavy_mix_bytes(*self, hash.bytes(), st));
        }
        mixed
    }
}

/// The nibble vector of 32 bytes holds, for byte `i`, its high half `hb[i] / 16` at
/// position `2 i` and its low half `hb[i] % 16` at position `2 i + 1`.
pub proof fn lemma_nibbles_split_bytes(hb: Seq<u8>)
    requires
        hb.len() == 32,
    ensures
        nibbles(hb).len() == 64,
        forall|i: int|
            0 <= i < 32 ==> #[trigger] nibbles(hb)[2 * i] == hb[i] as int / 16 && nibbles(hb)[2 * i
                + 1] == hb[i] as int % 16,
{
    assert forall|i: int| 0 <= i < 32 implies #[trigger] nibbles(hb)[2 * i] == hb[i] as int / 16
        && nibbles(hb)[2 * i + 1] == hb[i] as int % 16 by {
        let x = hb[i];
        assert((2 * i) / 2 == i && (2 * i) % 2 == 0);
        assert((2 * i + 1) / 2 == i && (2 * i + 1) % 2 == 1);
        assert(x >> 4u8 == x / 16u8 && x & 0x0Fu8 == x % 16u8) by (bit_vector);
    }
}

/// The S-box takes one update round when byte `(pbo[2] mod 8) + 1` of the product after the
/// octonion stage is even and two when it is odd, where `pbo` is the product before that
/// stage.
pub proof fn lemma_sbox_round_parity(st: MixState, m: Matrix, hb: Seq<u8>)
    requires
        mix_state_ok(st, m, hb),
    ensures
        ({
            let pbo = product_before_oct(m, hb);
            let p = product_after_oct(pbo);
            let init = initial_sbox(p, hb, nibble_product(m, hb), pbo);
            let b = p[(pbo[2] as int % 8) + 1];
            &&& b % 2 == 0 ==> st.sbox@ == sbox_rounds(init, p, hb, 1)
            &&& b % 2 == 1 ==> st.sbox@ == sbox_rounds(init, p, hb, 2)
        }),
{
}

/// The mixed hash runs the product after the octonion stage through `n` BLAKE3 hashes, where
/// `n` is one more than byte `(pbo[5] mod 8) + 1` of that product modulo 3 and `pbo` is the
/// product before the octonion stage; so `n` is 1, 2 or 3.
pub proof fn lemma_blake_round_choice(st: MixState, m: Matrix, hb: Seq<u8>)
    requires
        mix_state_ok(st, m, hb),
    ensures
        ({
            let pbo = product_before_oct(m, hb);
            let p = product_after_oct(pbo);
            let n = 1 + p[(pbo[5] as int % 8) + 1] as int % 3;
            &&& 1 <= n <= 3
            &&& heavy_mix_bytes(m, hb, st) == Seq::new(
                32,
                |i: int| final_byte(blake_chain(p, n as nat), i, st),
            )
        }),
{
}

/// Byte `i` of the product and of the nibble product depends on four rows of the matrix
/// alone: rows `2 i`, `2 i + 1`, `i + 2` and `i + 3`. Matrices that agree on those rows give
/// the same byte `i`.
pub proof fn lemma_product_byte_rows(m1: Matrix, m2: Matrix, hb: Seq<u8>, i: int)
    requires
        hb.len() == 32,
        0 <= i < 32,
        m1.0[2 * i] == m2.0[2 * i],
        m1.0[2 * i + 1] == m2.0[2 * i + 1],
        m1.0[i + 2] == m2.0[i + 2],
        m1.0[i + 3] == m2.0[i + 3],
    ensures
        product_before_oct(m1, hb)[i] == product_before_oct(m2, hb)[i],
        nibble_product(m1, hb)[i] == nibble_product(m2, hb)[i],
{
    assert(m1.rows()[2 * i] =~= m2.rows()[2 * i]);
    assert(m1.rows()[2 * i + 1] =~= m2.rows()[2 * i + 1]);
    assert(m1.rows()[i + 2] =~= m2.rows()[i + 2]);
    assert(m1.rows()[i + 3] =~= m2.rows()[i + 3]);
}

} // verus!
