//! Bit rotations and population count on fixed-width words.
use vstd::prelude::*;

verus! {

/// `x` rotated left by `n` bits (taken modulo 8).
pub open spec fn rotl8_spec(x: u8, n: u32) -> u8 {
    let k = n % 8;
    if k == 0 {
        x
    } else {
        ((x << k) | (x >> (8 - k) as u32)) as u8
    }
}

/// `x` rotated right by `n` bits (taken modulo 8).
pub open spec fn rotr8_spec(x: u8, n: u32) -> u8 {
    let k = n % 8;
    if k == 0 {
        x
    } else {
        ((x >> k) | (x << (8 - k) as u32)) as u8
    }
}

/// `x` rotated left by `n` bits (taken modulo 32).
pub open spec fn rotl32_spec(x: u32, n: u32) -> u32 {
    let k = n % 32;
    if k == 0 {
        x
    } else {
        (x << k) | (x >> (32 - k) as u32)
    }
}

/// `x` rotated right by `n` bits (taken modulo 32).
pub open spec fn rotr32_spec(x: u32, n: u32) -> u32 {
    let k = n % 32;
    if k == 0 {
        x
    } else {
        (x >> k) | (x << (32 - k) as u32)
    }
}

/// `x` rotated left by `n` bits (taken modulo 64).
pub open spec fn rotl64_spec(x: u64, n: u32) -> u64 {
    let k = n % 64;
    if k == 0 {
        x
    } else {
        (x << k) | (x >> (64 - k) as u32)
    }
}

/// The number of one bits among the lowest `n` bits of `x`.
pub open spec fn ones32(x: u32, n: nat) -> nat
    decreases n,
{
    if n == 0 {
        0
    } else {
        ones32(x, (n - 1) as nat) + ((x >> (n - 1) as u32) & 1u32) as nat
    }
}

/// Rotates `x` left by `n` bits, as `u8::rotate_left` does.
pub fn rotl8(x: u8, n: u32) -> (r: u8)
    ensures
        r == rotl8_spec(x, n),
{
    let k = n % 8;
    if k == 0 {
        x
    } else {
        (x << k) | (x >> (8 - k))
    }
}

/// Rotates `x` right by `n` bits, as `u8::rotate_right` does.
pub fn rotr8(x: u8, n: u32) -> (r: u8)
    ensures
        r == rotr8_spec(x, n),
{
    let k = n % 8;
    if k == 0 {
        x
    } else {
        (x >> k) | (x << (8 - k))
    }
}

/// Rotates `x` left by `n` bits, as `u32::rotate_left` does.
pub fn rotl32(x: u32, n: u32) -> (r: u32)
    ensures
        r == rotl32_spec(x, n),
{
    let k = n % 32;
    if k == 0 {
        x
    } else {
        (x << k) | (x >> (32 - k))
    }
}

/// Rotates `x` right by `n` bits, as `u32::rotate_right` does.
pub fn rotr32(x: u32, n: u32) -> (r: u32)
    ensures
        r == rotr32_spec(x, n),
{
    let k = n % 32;
    if k == 0 {
        x
    } else {
        (x >> k) | (x << (32 - k))
    }
}

/// Rotates `x` left by `n` bits, as `u64::rotate_left` does.
pub fn rotl64(x: u64, n: u32) -> (r: u64)
    ensures
        r == rotl64_spec(x, n),
{
    let k = n % 64;
    if k == 0 {
        x
    } else {
        (x << k) | (x >> (64 - k))
    }
}

/// The number of one bits in `x`, as `u32::count_ones` gives it.
pub fn count_ones32(x: u32) -> (r: u32)
    ensures
        r as nat == ones32(x, 32),
{
    let mut count: u32 = 0;
    let mut i: u32 = 0;
    while i < 32
        invariant
            i <= 32,
            count as nat == ones32(x, i as nat),
            count <= i,
        decreases 32 - i,
    {
        let bit = (x >> i) & 1u32;
        assert(bit <= 1) by (bit_vector)
            requires
                bit == (x >> i) & 1u32,
        ;
        count = count + bit;
        i = i + 1;
    }
    count
}

} // verus!
