//! The xoshiro256++ pseudo-random generator that derives a HeavyHash matrix
//! from a block's pre-PoW hash.
use vstd::prelude::*;
use crate::bits::{rotl64, rotl64_spec};


verus! {

/// The four state words of a xoshiro256++ generator.
pub struct XoshiroState {
    pub s0: u64,
    pub s1: u64,
    pub s2: u64,
    pub s3: u64,
}

/// The output that the next draw from state `s` gives.
pub open spec fn xoshiro_output(s: XoshiroState) -> u64 {
    s.s0.wrapping_add(rotl64_spec(s.s0.wrapping_add(s.s3), 23))
}

/// The state that follows `s` after one draw.
pub open spec fn xoshiro_step(s: XoshiroState) -> XoshiroState {
    let t = s.s1 << 17u64;
    let s2 = s.s2 ^ s.s0;
    let s3 = s.s3 ^ s.s1;
    let s1 = s.s1 ^ s2;
    let s0 = s.s0 ^ s3;
    XoshiroState { s0: s0, s1: s1, s2: s2 ^ t, s3: rotl64_spec(s3, 45) }
}

/// The state after `n` draws from `s`.
pub open spec fn xoshiro_advance(s: XoshiroState, n: nat) -> XoshiroState
    decreases n,
{
    if n == 0 {
        s
    } else {
        xoshiro_step(xoshiro_advance(s, (n - 1) as nat))
    }
}

/// The output of draw number `n` (counting from 0) from state `s`.
pub open spec fn xoshiro_nth(s: XoshiroState, n: nat) -> u64 {
    xoshiro_output(xoshiro_advance(s, n))
}

/// The state that a hash seeds: its four little-endian words.
pub open spec fn seed_state(h: crate::hash::Hash) -> XoshiroState {
    XoshiroState { s0: h.words()[0], s1: h.words()[1], s2: h.words()[2], s3: h.words()[3] }
}

/// The xoshiro256++ generator.
pub struct XoShiRo256PlusPlus {
    s0: u64,
    s1: u64,
    s2: u64,
    s3: u64,
}

impl XoShiRo256PlusPlus {
    /// The current state of the generator.
    pub closed spec fn state(self) -> XoshiroState {
        XoshiroState { s0: self.s0, s1: self.s1, s2: self.s2, s3: self.s3 }
    }

    /// A generator seeded with the four words of `hash`.
    pub fn new(hash: crate::hash::Hash) -> (g: Self)
        ensures
            g.state() == seed_state(hash),
            g.state().s0 == hash.words()[0],
            g.state().s1 == hash.words()[1],
            g.state().s2 == hash.words()[2],
            g.state().s3 == hash.words()[3],
    {
        let words = hash.to_le_u64();
        proof {
            hash.lemma_words_len();
        }
        XoShiRo256PlusPlus { s0: words[0], s1: words[1], s2: words[2], s3: words[3] }
    }

    /// Draws the next 64-bit output and advances the state.
    pub fn u64(&mut self) -> (res: u64)
        ensures
            res == xoshiro_output(old(self).state()),
            final(self).state() == xoshiro_step(old(self).state()),
    {
        let res = self.s0.wrapping_add(rotl64(self.s0.wrapping_add(self.s3), 23));
        let t = self.s1 << 17u64;
        self.s2 ^= self.s0;
        self.s3 ^= self.s1;
        self.s1 ^= self.s2;
        self.s0 ^= self.s3;
        self.s2 ^= t;
        self.s3 = rotl64(self.s3, 45);
        res
    }
}

/// The generator that a hash seeds starts from the hash's 32 bytes read as four
/// little-endian words, in order: state word `w` is made of bytes `8 w .. 8 w + 7`.
pub proof fn lemma_seed_reads_hash_bytes(h: crate::hash::Hash)
    ensures
        seed_state(h).s0 == crate::hash::le_word(h.bytes(), 0),
        seed_state(h).s1 == crate::hash::le_word(h.bytes(), 1),
        seed_state(h).s2 == crate::hash::le_word(h.bytes(), 2),
        seed_state(h).s3 == crate::hash::le_word(h.bytes(), 3),
{
    h.lemma_words_len();
    crate::hash::lemma_words_from_bytes(h);
}

/// One draw transforms the four state words as follows, each in terms of the words before
/// the draw: `s0 ^ s1 ^ s3`, `s0 ^ s1 ^ s2`, `s0 ^ s2 ^ (s1 << 17)`, and `s1 ^ s3` rotated
/// left by 45.
pub proof fn lemma_step_words(s: XoshiroState)
    ensures
        xoshiro_step(s).s0 == s.s0 ^ s.s1 ^ s.s3,
        xoshiro_step(s).s1 == s.s0 ^ s.s1 ^ s.s2,
        xoshiro_step(s).s2 == s.s0 ^ s.s2 ^ (s.s1 << 17u64),
        xoshiro_step(s).s3 == (((s.s1 ^ s.s3) << 45u64) | ((s.s1 ^ s.s3) >> 19u64)),
{
    let (a, b, c, d) = (s.s0, s.s1, s.s2, s.s3);
    assert(a ^ (d ^ b) == a ^ b ^ d) by (bit_vector);
    assert(b ^ (c ^ a) == a ^ b ^ c) by (bit_vector);
    assert((c ^ a) ^ (b << 17u64) == a ^ c ^ (b << 17u64)) by (bit_vector);
    let v = d ^ b;
    assert(d ^ b == b ^ d) by (bit_vector);
    assert(rotl64_spec(v, 45) == (v << 45u32) | (v >> 19u32));
    assert((v << 45u32) | (v >> 19u32) == (v << 45u64) | (v >> 19u64)) by (bit_vector);
}

/// A draw loses no information: two states that lead to the same state are the same.
pub proof fn lemma_step_injective(x: XoshiroState, y: XoshiroState)
    requires
        xoshiro_step(x) == xoshiro_step(y),
    ensures
        x == y,
{
    lemma_step_words(x);
    lemma_step_words(y);
    let (a0, a1, a2, a3) = (x.s0, x.s1, x.s2, x.s3);
    let (b0, b1, b2, b3) = (y.s0, y.s1, y.s2, y.s3);
    assert(a0 == b0 && a1 == b1 && a2 == b2 && a3 == b3) by (bit_vector)
        requires
            a0 ^ a1 ^ a3 == b0 ^ b1 ^ b3,
            a0 ^ a1 ^ a2 == b0 ^ b1 ^ b2,
            a0 ^ a2 ^ (a1 << 17u64) == b0 ^ b2 ^ (b1 << 17u64),
            ((a1 ^ a3) << 45u64) | ((a1 ^ a3) >> 19u64) == ((b1 ^ b3) << 45u64) | ((b1 ^ b3) >> 19u64),
    ;
}

} // verus!
