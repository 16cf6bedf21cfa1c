use vstd::prelude::*;

verus! {

/// The little-endian 64-bit word made of the eight bytes `b[8 * w] .. b[8 * w + 7]`.
pub open spec fn le_word(b: Seq<u8>, w: int) -> u64 {
    (b[8 * w] as u64)
        | ((b[8 * w + 1] as u64) << 8u64)
        | ((b[8 * w + 2] as u64) << 16u64)
        | ((b[8 * w + 3] as u64) << 24u64)
        | ((b[8 * w + 4] as u64) << 32u64)
        | ((b[8 * w + 5] as u64) << 40u64)
        | ((b[8 * w + 6] as u64) << 48u64)
        | ((b[8 * w + 7] as u64) << 56u64)
}

/// Byte `k` (counted from the least significant end) of the word `x`.
pub open spec fn word_byte(x: u64, k: int) -> u8 {
    ((x >> (8 * k) as u64) & 0xffu64) as u8
}

/// A 256-bit hash value held as four little-endian 64-bit words,
/// the least significant word first.
#[derive(Clone, Copy, Debug, PartialEq, Eq, Hash, Default)]
pub struct Hash([u64; 4]);

impl Hash {
    /// The four words of the hash, least significant first.
    pub closed spec fn words(self) -> Seq<u64> {
        self.0@
    }

    /// The 32 bytes of the hash in little-endian order.
    pub open spec fn bytes(self) -> Seq<u8> {
        Seq::new(32, |i: int| word_byte(self.words()[i / 8], i % 8))
    }

    pub proof fn lemma_words_len(self)
        ensures
            self.words().len() == 4,
    {
    }

    /// Two hashes with the same words are the same hash.
    pub proof fn lemma_eq_words(self, other: Hash)
        requires
            self.words() == other.words(),
        ensures
            self == other,
    {
        assert(self.0@ =~= other.0@);
        vstd::array::axiom_array_ext_equal(self.0, other.0);
    }

    /// Makes a hash from its four words, least significant first.
    pub fn new(words: [u64; 4]) -> (h: Hash)
        ensures
            h.words() == words@,
    {
        Hash(words)
    }

    /// The four words of the hash, least significant first.
    pub fn to_le_u64(self) -> (w: [u64; 4])
        ensures
            w@ == self.words(),
    {
        self.0
    }

    /// Reads a hash from 32 bytes in little-endian order.
    pub fn from_le_bytes(bytes: [u8; 32]) -> (h: Hash)
        ensures
            h.words().len() == 4,
            forall|w: int| 0 <= w < 4 ==> #[trigger] h.words()[w] == le_word(bytes@, w),
    {
        let mut out: [u64; 4] = [0u64; 4];
        let mut w: usize = 0;
        while w < 4
            invariant
                w <= 4,
                forall|v: int| 0 <= v < w ==> #[trigger] out@[v] == le_word(bytes@, v),
            decreases 4 - w,
        {
            let b = 8 * w;
            out[w] = (bytes[b] as u64)
                | ((bytes[b + 1] as u64) << 8u64)
                | ((bytes[b + 2] as u64) << 16u64)
                | ((bytes[b + 3] as u64) << 24u64)
                | ((bytes[b + 4] as u64) << 32u64)
                | ((bytes[b + 5] as u64) << 40u64)
                | ((bytes[b + 6] as u64) << 48u64)
                | ((bytes[b + 7] as u64) << 56u64);
            w = w + 1;
        }
        Hash(out)
    }

    /// Writes the hash as 32 bytes in little-endian order.
    pub fn to_le_bytes(self) -> (bytes: [u8; 32])
        ensures
            bytes@ == self.bytes(),
    {
        let mut out: [u8; 32] = [0u8; 32];
        let mut i: usize = 0;
        while i < 32
            invariant
                i <= 32,
                self.0@ == self.words(),
                forall|j: int| 0 <= j < i ==> #[trigger] out@[j] == word_byte(self.words()[j / 8], j % 8),
            decreases 32 - i,
        {
            let x = self.0[i / 8];
            let k = (i % 8) as u64;
            out[i] = ((x >> (8 * k)) & 0xffu64) as u8;
            i = i + 1;
        }
        assert(out@ =~= self.bytes());
        out
    }
}


proof fn lemma_bytes_of_word(b0: u8, b1: u8, b2: u8, b3: u8, b4: u8, b5: u8, b6: u8, b7: u8)
    ensures
        ({
            let x = (b0 as u64) | ((b1 as u64) << 8u64) | ((b2 as u64) << 16u64) | ((b3 as u64)
                << 24u64) | ((b4 as u64) << 32u64) | ((b5 as u64) << 40u64) | ((b6 as u64)
                << 48u64) | ((b7 as u64) << 56u64);
            &&& ((x >> 0u64) & 0xffu64) as u8 == b0
            &&& ((x >> 8u64) & 0xffu64) as u8 == b1
            &&& ((x >> 16u64) & 0xffu64) as u8 == b2
            &&& ((x >> 24u64) & 0xffu64) as u8 == b3
            &&& ((x >> 32u64) & 0xffu64) as u8 == b4
            &&& ((x >> 40u64) & 0xffu64) as u8 == b5
            &&& ((x >> 48u64) & 0xffu64) as u8 == b6
            &&& ((x >> 56u64) & 0xffu64) as u8 == b7
        }),
{
    assert({
        let x = (b0 as u64) | ((b1 as u64) << 8u64) | ((b2 as u64) << 16u64) | ((b3 as u64)
            << 24u64) | ((b4 as u64) << 32u64) | ((b5 as u64) << 40u64) | ((b6 as u64)
            << 48u64) | ((b7 as u64) << 56u64);
        &&& ((x >> 0u64) & 0xffu64) as u8 == b0
        &&& ((x >> 8u64) & 0xffu64) as u8 == b1
        &&& ((x >> 16u64) & 0xffu64) as u8 == b2
        &&& ((x >> 24u64) & 0xffu64) as u8 == b3
        &&& ((x >> 32u64) & 0xffu64) as u8 == b4
        &&& ((x >> 40u64) & 0xffu64) as u8 == b5
        &&& ((x >> 48u64) & 0xffu64) as u8 == b6
        &&& ((x >> 56u64) & 0xffu64) as u8 == b7
    }) by (bit_vector);
}

proof fn lemma_word_of_bytes(x: u64)
    ensures
        x == (((x >> 0u64) & 0xffu64) as u8 as u64) | ((((x >> 8u64) & 0xffu64) as u8 as u64)
            << 8u64) | ((((x >> 16u64) & 0xffu64) as u8 as u64) << 16u64) | ((((x >> 24u64)
            & 0xffu64) as u8 as u64) << 24u64) | ((((x >> 32u64) & 0xffu64) as u8 as u64)
            << 32u64) | ((((x >> 40u64) & 0xffu64) as u8 as u64) << 40u64) | ((((x >> 48u64)
            & 0xffu64) as u8 as u64) << 48u64) | ((((x >> 56u64) & 0xffu64) as u8 as u64)
            << 56u64),
{
    assert(x == (((x >> 0u64) & 0xffu64) as u8 as u64) | ((((x >> 8u64) & 0xffu64) as u8 as u64)
        << 8u64) | ((((x >> 16u64) & 0xffu64) as u8 as u64) << 16u64) | ((((x >> 24u64)
        & 0xffu64) as u8 as u64) << 24u64) | ((((x >> 32u64) & 0xffu64) as u8 as u64)
        << 32u64) | ((((x >> 40u64) & 0xffu64) as u8 as u64) << 40u64) | ((((x >> 48u64)
        & 0xffu64) as u8 as u64) << 48u64) | ((((x >> 56u64) & 0xffu64) as u8 as u64)
        << 56u64)) by (bit_vector);
}

/// Writing the bytes that were read gives them back: `to_le_bytes` undoes `from_le_bytes`.
pub proof fn lemma_bytes_roundtrip(b: Seq<u8>, h: Hash)
    requires
        b.len() == 32,
        h.words().len() == 4,
        forall|w: int| 0 <= w < 4 ==> #[trigger] h.words()[w] == le_word(b, w),
    ensures
        h.bytes() == b,
{
    assert forall|i: int| 0 <= i < 32 implies #[trigger] h.bytes()[i] == b[i] by {
        let w = i / 8;
        lemma_bytes_of_word(b[8 * w], b[8 * w + 1], b[8 * w + 2], b[8 * w + 3], b[8 * w + 4],
            b[8 * w + 5], b[8 * w + 6], b[8 * w + 7]);
        assert(h.words()[w] == le_word(b, w));
    }
    assert(h.bytes() =~= b);
}

/// Each word of a hash is the little-endian word of its own bytes `8 w .. 8 w + 7`.
pub proof fn lemma_words_from_bytes(h: Hash)
    requires
        h.words().len() == 4,
    ensures
        forall|w: int| 0 <= w < 4 ==> #[trigger] h.words()[w] == le_word(h.bytes(), w),
{
    assert forall|w: int| 0 <= w < 4 implies #[trigger] h.words()[w] == le_word(h.bytes(), w) by {
        lemma_word_of_bytes(h.words()[w]);
        assert(h.bytes()[8 * w] == word_byte(h.words()[w], 0));
        assert(h.bytes()[8 * w + 1] == word_byte(h.words()[w], 1));
        assert(h.bytes()[8 * w + 2] == word_byte(h.words()[w], 2));
        assert(h.bytes()[8 * w + 3] == word_byte(h.words()[w], 3));
        assert(h.bytes()[8 * w + 4] == word_byte(h.words()[w], 4));
        assert(h.bytes()[8 * w + 5] == word_byte(h.words()[w], 5));
        assert(h.bytes()[8 * w + 6] == word_byte(h.words()[w], 6));
        assert(h.bytes()[8 * w + 7] == word_byte(h.words()[w], 7));
    }
}

/// Reading the bytes that were written gives the hash back: `from_le_bytes` undoes `to_le_bytes`.
pub proof fn lemma_words_roundtrip(h: Hash, g: Hash)
    requires
        h.words().len() == 4,
        g.words().len() == 4,
        forall|w: int| 0 <= w < 4 ==> #[trigger] g.words()[w] == le_word(h.bytes(), w),
    ensures
        g == h,
{
    lemma_words_from_bytes(h);
    assert(h.words() =~= g.words());
    h.lemma_eq_words(g);
}

} // verus!
