//! Octonion-style products of eight 64-bit integers, computed modulo 2^64, and the
//! octonion hash of a 32-byte product.
use vstd::prelude::*;
use vstd::wrapping::i64_specs::signed_crop;
use crate::matrix::Matrix;

verus! {

/// The modulus of 64-bit wrapping arithmetic.
pub open spec fn word_range() -> int {
    0x1_0000_0000_0000_0000
}

/// Component `k` of the product of `a` and `b`, computed exactly over the integers:
/// the sign pattern below is the multiplication table that the miner uses.
pub open spec fn oct_component(a: Seq<int>, b: Seq<int>, k: int) -> int {
    if k == 0 {
        a[0] * b[0] - a[1] * b[1] - a[2] * b[2] - a[3] * b[3] - a[4] * b[4] - a[5] * b[5] - a[6]
            * b[6] - a[7] * b[7]
    } else if k == 1 {
        a[0] * b[1] + a[1] * b[0] + a[2] * b[3] - a[3] * b[2] + a[4] * b[5] - a[5] * b[4] - a[6]
            * b[7] + a[7] * b[6]
    } else if k == 2 {
        a[0] * b[2] - a[1] * b[3] + a[2] * b[0] + a[3] * b[1] + a[4] * b[6] - a[5] * b[7] + a[6]
            * b[4] - a[7] * b[5]
    } else if k == 3 {
        a[0] * b[3] + a[1] * b[2] - a[2] * b[1] + a[3] * b[0] + a[4] * b[7] + a[5] * b[6] - a[6]
            * b[5] + a[7] * b[4]
    } else if k == 4 {
        a[0] * b[4] - a[1] * b[5] - a[2] * b[6] - a[3] * b[7] + a[4] * b[0] + a[5] * b[1] + a[6]
            * b[2] + a[7] * b[3]
    } else if k == 5 {
        a[0] * b[5] + a[1] * b[4] - a[2] * b[7] + a[3] * b[6] - a[4] * b[1] + a[5] * b[0] + a[6]
            * b[3] + a[7] * b[2]
    } else if k == 6 {
        a[0] * b[6] + a[1] * b[7] + a[2] * b[4] - a[3] * b[5] - a[4] * b[2] + a[5] * b[3] + a[6]
            * b[0] + a[7] * b[1]
    } else {
        a[0] * b[7] - a[1] * b[6] + a[2] * b[5] + a[3] * b[4] - a[4] * b[3] + a[5] * b[2] + a[6]
            * b[1] + a[7] * b[0]
    }
}

pub open spec fn ints(a: Seq<i64>) -> Seq<int> {
    Seq::new(a.len(), |i: int| a[i] as int)
}

/// The product of `a` and `b`, each component reduced to a signed 64-bit word.
pub open spec fn oct_mul(a: Seq<i64>, b: Seq<i64>) -> Seq<i64> {
    Seq::new(8, |k: int| signed_crop(oct_component(ints(a), ints(b), k)))
}

pub(crate) proof fn lemma_crop_mod(u: int)
    ensures
        (signed_crop(u) as int) % word_range() == u % word_range(),
{
    let r = word_range();
    let m = u % r;
    if m > i64::MAX as int {
        assert(signed_crop(u) as int == m - r);
        vstd::arithmetic::div_mod::lemma_mod_add_multiples_vanish(m - r, r);
        assert((m - r + r) % r == (m - r) % r);
        vstd::arithmetic::div_mod::lemma_mod_twice(u, r);
    } else {
        assert(signed_crop(u) as int == m);
        vstd::arithmetic::div_mod::lemma_mod_twice(u, r);
    }
}

pub(crate) proof fn lemma_crop_i64(x: i64)
    ensures
        signed_crop(x as int) == x,
{
    let r = word_range();
    if x >= 0 {
        vstd::arithmetic::div_mod::lemma_small_mod(x as nat, r as nat);
    } else {
        vstd::arithmetic::div_mod::lemma_mod_add_multiples_vanish(x as int, r);
        vstd::arithmetic::div_mod::lemma_small_mod((x + r) as nat, r as nat);
    }
}

pub(crate) proof fn lemma_add_crop(x: i64, y: i64, u: int, v: int)
    requires
        x == signed_crop(u),
        y == signed_crop(v),
    ensures
        x.wrapping_add(y) == signed_crop(u + v),
{
    let r = word_range();
    lemma_crop_mod(u);
    lemma_crop_mod(v);
    vstd::arithmetic::div_mod::lemma_add_mod_noop(x as int, y as int, r);
    vstd::arithmetic::div_mod::lemma_add_mod_noop(u, v, r);
    let s = x as int + y as int;
    if s > i64::MAX {
        lemma_crop_i64((s - r) as i64);
        vstd::arithmetic::div_mod::lemma_mod_sub_multiples_vanish(s, r);
        assert((s - r) % r == s % r);
    } else if s < i64::MIN {
        lemma_crop_i64((s + r) as i64);
        vstd::arithmetic::div_mod::lemma_mod_add_multiples_vanish(s, r);
    } else {
        lemma_crop_i64(s as i64);
    }
}

pub(crate) proof fn lemma_sub_crop(x: i64, y: i64, u: int, v: int)
    requires
        x == signed_crop(u),
        y == signed_crop(v),
    ensures
        x.wrapping_sub(y) == signed_crop(u - v),
{
    let r = word_range();
    lemma_crop_mod(u);
    lemma_crop_mod(v);
    vstd::arithmetic::div_mod::lemma_sub_mod_noop(x as int, y as int, r);
    vstd::arithmetic::div_mod::lemma_sub_mod_noop(u, v, r);
    let s = x as int - y as int;
    if s > i64::MAX {
        lemma_crop_i64((s - r) as i64);
        vstd::arithmetic::div_mod::lemma_mod_sub_multiples_vanish(s, r);
    } else if s < i64::MIN {
        lemma_crop_i64((s + r) as i64);
        vstd::arithmetic::div_mod::lemma_mod_add_multiples_vanish(s, r);
    } else {
        lemma_crop_i64(s as i64);
    }
}

pub(crate) proof fn lemma_mul_crop(x: i64, y: i64)
    ensures
        x.wrapping_mul(y) == signed_crop(x as int * y as int),
{
}


/// The octonion hash state after `n` products: it starts from the first eight bytes
/// and multiplies by the window of eight bytes starting at each later position, wrapping
/// around the end.
pub open spec fn oct_hash_rounds(input: Seq<u8>, n: nat) -> Seq<i64>
    decreases n,
{
    if n == 0 {
        Seq::new(8, |k: int| input[k] as i64)
    } else {
        oct_mul(
            oct_hash_rounds(input, (n - 1) as nat),
            Seq::new(8, |k: int| input[(8 + n - 1 + k) % 32] as i64),
        )
    }
}

impl Matrix {
    fn add_product(acc: i64, x: i64, y: i64, Ghost(u): Ghost<int>) -> (r: i64)
        requires
            acc == signed_crop(u),
        ensures
            r == signed_crop(u + x as int * y as int),
    {
        proof {
            lemma_mul_crop(x, y);
            lemma_add_crop(acc, x.wrapping_mul(y), u, x as int * y as int);
        }
        acc.wrapping_add(x.wrapping_mul(y))
    }

    fn sub_product(acc: i64, x: i64, y: i64, Ghost(u): Ghost<int>) -> (r: i64)
        requires
            acc == signed_crop(u),
        ensures
            r == signed_crop(u - x as int * y as int),
    {
        proof {
            lemma_mul_crop(x, y);
            lemma_sub_crop(acc, x.wrapping_mul(y), u, x as int * y as int);
        }
        acc.wrapping_sub(x.wrapping_mul(y))
    }

    /// The product of `a` and `b` in the octonion-style algebra of the miner, with all
    /// arithmetic wrapping modulo 2^64.
    pub fn octonion_multiply(a: &[i64; 8], b: &[i64; 8]) -> (result: [i64; 8])
        ensures
            result@ == oct_mul(a@, b@),
    {
        let mut result = [0i64; 8];
        // e0
        let ghost u = a[0] as int * b[0] as int;
        let mut acc = a[0].wrapping_mul(b[0]);
        acc = Self::sub_product(acc, a[1], b[1], Ghost(u));
        let ghost u = u - a[1] as int * b[1] as int;
        acc = Self::sub_product(acc, a[2], b[2], Ghost(u));
        let ghost u = u - a[2] as int * b[2] as int;
        acc = Self::sub_product(acc, a[3], b[3], Ghost(u));
        let ghost u = u - a[3] as int * b[3] as int;
        acc = Self::sub_product(acc, a[4], b[4], Ghost(u));
        let ghost u = u - a[4] as int * b[4] as int;
        acc = Self::sub_product(acc, a[5], b[5], Ghost(u));
        let ghost u = u - a[5] as int * b[5] as int;
        acc = Self::sub_product(acc, a[6], b[6], Ghost(u));
        let ghost u = u - a[6] as int * b[6] as int;
        acc = Self::sub_product(acc, a[7], b[7], Ghost(u));
        let ghost u = u - a[7] as int * b[7] as int;
        result[0] = acc;
        assert(result[0] == oct_mul(a@, b@)[0]);
        // e1
        let ghost u = a[0] as int * b[1] as int;
        let mut acc = a[0].wrapping_mul(b[1]);
        acc = Self::add_product(acc, a[1], b[0], Ghost(u));
        let ghost u = u + a[1] as int * b[0] as int;
        acc = Self::add_product(acc, a[2], b[3], Ghost(u));
        let ghost u = u + a[2] as int * b[3] as int;
        acc = Self::sub_product(acc, a[3], b[2], Ghost(u));
        let ghost u = u - a[3] as int * b[2] as int;
        acc = Self::add_product(acc, a[4], b[5], Ghost(u));
        let ghost u = u + a[4] as int * b[5] as int;
        acc = Self::sub_product(acc, a[5], b[4], Ghost(u));
        let ghost u = u - a[5] as int * b[4] as int;
        acc = Self::sub_product(acc, a[6], b[7], Ghost(u));
        let ghost u = u - a[6] as int * b[7] as int;
        acc = Self::add_product(acc, a[7], b[6], Ghost(u));
        let ghost u = u + a[7] as int * b[6] as int;
        result[1] = acc;
        assert(result[1] == oct_mul(a@, b@)[1]);
        // e2
        let ghost u = a[0] as int * b[2] as int;
        let mut acc = a[0].wrapping_mul(b[2]);
        acc = Self::sub_product(acc, a[1], b[3], Ghost(u));
        let ghost u = u - a[1] as int * b[3] as int;
        acc = Self::add_product(acc, a[2], b[0], Ghost(u));
        let ghost u = u + a[2] as int * b[0] as int;
        acc = Self::add_product(acc, a[3], b[1], Ghost(u));
        let ghost u = u + a[3] as int * b[1] as int;
        acc = Self::add_product(acc, a[4], b[6], Ghost(u));
        let ghost u = u + a[4] as int * b[6] as int;
        acc = Self::sub_product(acc, a[5], b[7], Ghost(u));
        let ghost u = u - a[5] as int * b[7] as int;
        acc = Self::add_product(acc, a[6], b[4], Ghost(u));
        let ghost u = u + a[6] as int * b[4] as int;
        acc = Self::sub_product(acc, a[7], b[5], Ghost(u));
        let ghost u = u - a[7] as int * b[5] as int;
        result[2] = acc;
        assert(result[2] == oct_mul(a@, b@)[2]);
        // e3
        let ghost u = a[0] as int * b[3] as int;
        let mut acc = a[0].wrapping_mul(b[3]);
        acc = Self::add_product(acc, a[1], b[2], Ghost(u));
        let ghost u = u + a[1] as int * b[2] as int;
        acc = Self::sub_product(acc, a[2], b[1], Ghost(u));
        let ghost u = u - a[2] as int * b[1] as int;
        acc = Self::add_product(acc, a[3], b[0], Ghost(u));
        let ghost u = u + a[3] as int * b[0] as int;
        acc = Self::add_product(acc, a[4], b[7], Ghost(u));
        let ghost u = u + a[4] as int * b[7] as int;
        acc = Self::add_product(acc, a[5], b[6], Ghost(u));
        let ghost u = u + a[5] as int * b[6] as int;
        acc = Self::sub_product(acc, a[6], b[5], Ghost(u));
        let ghost u = u - a[6] as int * b[5] as int;
        acc = Self::add_product(acc, a[7], b[4], Ghost(u));
        let ghost u = u + a[7] as int * b[4] as int;
        result[3] = acc;
        assert(result[3] == oct_mul(a@, b@)[3]);
        // e4
        let ghost u = a[0] as int * b[4] as int;
        let mut acc = a[0].wrapping_mul(b[4]);
        acc = Self::sub_product(acc, a[1], b[5], Ghost(u));
        let ghost u = u - a[1] as int * b[5] as int;
        acc = Self::sub_product(acc, a[2], b[6], Ghost(u));
        let ghost u = u - a[2] as int * b[6] as int;
        acc = Self::sub_product(acc, a[3], b[7], Ghost(u));
        let ghost u = u - a[3] as int * b[7] as int;
        acc = Self::add_product(acc, a[4], b[0], Ghost(u));
        let ghost u = u + a[4] as int * b[0] as int;
        acc = Self::add_product(acc, a[5], b[1], Ghost(u));
        let ghost u = u + a[5] as int * b[1] as int;
        acc = Self::add_product(acc, a[6], b[2], Ghost(u));
        let ghost u = u + a[6] as int * b[2] as int;
        acc = Self::add_product(acc, a[7], b[3], Ghost(u));
        let ghost u = u + a[7] as int * b[3] as int;
        result[4] = acc;
        assert(result[4] == oct_mul(a@, b@)[4]);
        // e5
        let ghost u = a[0] as int * b[5] as int;
        let mut acc = a[0].wrapping_mul(b[5]);
        acc = Self::add_product(acc, a[1], b[4], Ghost(u));
        let ghost u = u + a[1] as int * b[4] as int;
        acc = Self::sub_product(acc, a[2], b[7], Ghost(u));
        let ghost u = u - a[2] as int * b[7] as int;
        acc = Self::add_product(acc, a[3], b[6], Ghost(u));
        let ghost u = u + a[3] as int * b[6] as int;
        acc = Self::sub_product(acc, a[4], b[1], Ghost(u));
        let ghost u = u - a[4] as int * b[1] as int;
        acc = Self::add_product(acc, a[5], b[0], Ghost(u));
        let ghost u = u + a[5] as int * b[0] as int;
        acc = Self::add_product(acc, a[6], b[3], Ghost(u));
        let ghost u = u + a[6] as int * b[3] as int;
        acc = Self::add_product(acc, a[7], b[2], Ghost(u));
        let ghost u = u + a[7] as int * b[2] as int;
        result[5] = acc;
        assert(result[5] == oct_mul(a@, b@)[5]);
        // e6
        let ghost u = a[0] as int * b[6] as int;
        let mut acc = a[0].wrapping_mul(b[6]);
        acc = Self::add_product(acc, a[1], b[7], Ghost(u));
        let ghost u = u + a[1] as int * b[7] as int;
        acc = Self::add_product(acc, a[2], b[4], Ghost(u));
        let ghost u = u + a[2] as int * b[4] as int;
        acc = Self::sub_product(acc, a[3], b[5], Ghost(u));
        let ghost u = u - a[3] as int * b[5] as int;
        acc = Self::sub_product(acc, a[4], b[2], Ghost(u));
        let ghost u = u - a[4] as int * b[2] as int;
        acc = Self::add_product(acc, a[5], b[3], Ghost(u));
        let ghost u = u + a[5] as int * b[3] as int;
        acc = Self::add_product(acc, a[6], b[0], Ghost(u));
        let ghost u = u + a[6] as int * b[0] as int;
        acc = Self::add_product(acc, a[7], b[1], Ghost(u));
        let ghost u = u + a[7] as int * b[1] as int;
        result[6] = acc;
        assert(result[6] == oct_mul(a@, b@)[6]);
        // e7
        let ghost u = a[0] as int * b[7] as int;
        let mut acc = a[0].wrapping_mul(b[7]);
        acc = Self::sub_product(acc, a[1], b[6], Ghost(u));
        let ghost u = u - a[1] as int * b[6] as int;
        acc = Self::add_product(acc, a[2], b[5], Ghost(u));
        let ghost u = u + a[2] as int * b[5] as int;
        acc = Self::add_product(acc, a[3], b[4], Ghost(u));
        let ghost u = u + a[3] as int * b[4] as int;
        acc = Self::sub_product(acc, a[4], b[3], Ghost(u));
        let ghost u = u - a[4] as int * b[3] as int;
        acc = Self::add_product(acc, a[5], b[2], Ghost(u));
        let ghost u = u + a[5] as int * b[2] as int;
        acc = Self::add_product(acc, a[6], b[1], Ghost(u));
        let ghost u = u + a[6] as int * b[1] as int;
        acc = Self::add_product(acc, a[7], b[0], Ghost(u));
        let ghost u = u + a[7] as int * b[0] as int;
        result[7] = acc;
        assert(result[7] == oct_mul(a@, b@)[7]);
        assert(result@ =~= oct_mul(a@, b@));
        result
    }

    /// The octonion hash of a 32-byte product: the first eight bytes multiplied in turn
    /// by the 24 windows of eight bytes that start at positions 8 to 31.
    pub fn octonion_hash(input_hash: &[u8; 32]) -> (oct: [i64; 8])
        ensures
            oct@ == oct_hash_rounds(input_hash@, 24),
    {
        let mut oct: [i64; 8] = [
            input_hash[0] as i64,
            input_hash[1] as i64,
            input_hash[2] as i64,
            input_hash[3] as i64,
            input_hash[4] as i64,
            input_hash[5] as i64,
            input_hash[6] as i64,
            input_hash[7] as i64,
        ];
        assert(oct@ =~= oct_hash_rounds(input_hash@, 0));
        let mut i: usize = 8;
        while i < 32
            invariant
                8 <= i <= 32,
                oct@ == oct_hash_rounds(input_hash@, (i - 8) as nat),
            decreases 32 - i,
        {
            let rotation: [i64; 8] = [
                input_hash[i % 32] as i64,
                input_hash[(i + 1) % 32] as i64,
                input_hash[(i + 2) % 32] as i64,
                input_hash[(i + 3) % 32] as i64,
                input_hash[(i + 4) % 32] as i64,
                input_hash[(i + 5) % 32] as i64,
                input_hash[(i + 6) % 32] as i64,
                input_hash[(i + 7) % 32] as i64,
            ];
            assert(rotation@ =~= Seq::new(8, |k: int| input_hash@[(8 + (i - 8 + 1) - 1 + k) % 32] as i64));
            oct = Self::octonion_multiply(&oct, &rotation);
            i = i + 1;
        }
        oct
    }
}

/// The element with a one in the real component and zeros elsewhere.
pub open spec fn oct_one() -> Seq<i64> {
    Seq::new(8, |k: int| if k == 0 { 1i64 } else { 0i64 })
}

/// The real unit is a two-sided identity of the product.
pub proof fn lemma_oct_one_identity(x: Seq<i64>)
    requires
        x.len() == 8,
    ensures
        oct_mul(oct_one(), x) == x,
        oct_mul(x, oct_one()) == x,
{
    let e = ints(oct_one());
    let v = ints(x);
    assert forall|k: int| 0 <= k < 8 implies #[trigger] oct_mul(oct_one(), x)[k] == x[k] by {
        assert(e[0] == 1 && e[1] == 0 && e[2] == 0 && e[3] == 0 && e[4] == 0 && e[5] == 0 && e[6]
            == 0 && e[7] == 0);
        assert(oct_component(e, v, k) == v[k]) by (nonlinear_arith)
            requires
                e[0] == 1 && e[1] == 0 && e[2] == 0 && e[3] == 0 && e[4] == 0 && e[5] == 0 && e[6]
                    == 0 && e[7] == 0,
                0 <= k < 8,
        ;
        lemma_crop_i64(x[k]);
    }
    assert forall|k: int| 0 <= k < 8 implies #[trigger] oct_mul(x, oct_one())[k] == x[k] by {
        assert(e[0] == 1 && e[1] == 0 && e[2] == 0 && e[3] == 0 && e[4] == 0 && e[5] == 0 && e[6]
            == 0 && e[7] == 0);
        assert(oct_component(v, e, k) == v[k]) by (nonlinear_arith)
            requires
                e[0] == 1 && e[1] == 0 && e[2] == 0 && e[3] == 0 && e[4] == 0 && e[5] == 0 && e[6]
                    == 0 && e[7] == 0,
                0 <= k < 8,
        ;
        lemma_crop_i64(x[k]);
    }
    assert(oct_mul(oct_one(), x) =~= x);
    assert(oct_mul(x, oct_one()) =~= x);
}


/// The imaginary unit `k` (1 to 7): a one in component `k`, zeros elsewhere.
pub open spec fn oct_unit(k: int) -> Seq<i64> {
    Seq::new(8, |j: int| if j == k { 1i64 } else { 0i64 })
}

/// Each imaginary unit squares to minus the real unit.
pub proof fn lemma_oct_units_square(k: int)
    requires
        1 <= k < 8,
    ensures
        oct_mul(oct_unit(k), oct_unit(k)) == Seq::new(8, |j: int| if j == 0 { -1i64 } else { 0i64 }),
{
    let e = ints(oct_unit(k));
    assert forall|j: int| 0 <= j < 8 implies #[trigger] oct_mul(oct_unit(k), oct_unit(k))[j] == (if j
        == 0 {
        -1i64
    } else {
        0i64
    }) by {
        assert(forall|t: int| 0 <= t < 8 ==> e[t] == if t == k { 1int } else { 0int });
        assert(oct_component(e, e, j) == if j == 0 { -1int } else { 0int }) by (nonlinear_arith)
            requires
                forall|t: int| 0 <= t < 8 ==> e[t] == if t == k { 1int } else { 0int },
                1 <= k < 8,
                0 <= j < 8,
        ;
        lemma_crop_i64(-1i64);
        lemma_crop_i64(0i64);
    }
    assert(oct_mul(oct_unit(k), oct_unit(k)) =~= Seq::new(8, |j: int| if j == 0 { -1i64 } else { 0i64 }));
}

} // verus!
