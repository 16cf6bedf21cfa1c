//! Laws of the octonion-style product: it is bilinear modulo 2^64.
use vstd::prelude::*;
use vstd::wrapping::i64_specs::signed_crop;
use crate::octonion::{
    ints, lemma_add_crop, lemma_crop_i64, lemma_crop_mod, lemma_mul_crop, oct_component, oct_mul,
    word_range,
};

verus! {

/// `a` is `a1 + a2` up to multiples of 2^64 in each of its eight components.
pub open spec fn sum_up_to_wrap(a: Seq<int>, a1: Seq<int>, a2: Seq<int>, t: Seq<int>) -> bool {
    forall|i: int| 0 <= i < 8 ==> #[trigger] a[i] == a1[i] + a2[i] + word_range() * t[i]
}

proof fn lemma_term_left(p: int, q: int, r: int, s: int, w: int)
    requires
        p == q + r + word_range() * s,
    ensures
        p * w == q * w + r * w + word_range() * (s * w),
{
    assert(p * w == q * w + r * w + word_range() * (s * w)) by (nonlinear_arith)
        requires
            p == q + r + word_range() * s,
    ;
}

proof fn lemma_term_right(p: int, q: int, r: int, s: int, w: int)
    requires
        p == q + r + word_range() * s,
    ensures
        w * p == w * q + w * r + word_range() * (w * s),
{
    assert(w * p == w * q + w * r + word_range() * (w * s)) by (nonlinear_arith)
        requires
            p == q + r + word_range() * s,
    ;
}

/// Each component of the product is additive in the left factor, over the integers.
proof fn lemma_component_add_left(a: Seq<int>, a1: Seq<int>, a2: Seq<int>, t: Seq<int>, b: Seq<int>, k: int)
    requires
        sum_up_to_wrap(a, a1, a2, t),
        0 <= k < 8,
    ensures
        oct_component(a, b, k) == oct_component(a1, b, k) + oct_component(a2, b, k) + word_range()
            * oct_component(t, b, k),
{
    assert(a[0] == a1[0] + a2[0] + word_range() * t[0]);
    assert(a[1] == a1[1] + a2[1] + word_range() * t[1]);
    assert(a[2] == a1[2] + a2[2] + word_range() * t[2]);
    assert(a[3] == a1[3] + a2[3] + word_range() * t[3]);
    assert(a[4] == a1[4] + a2[4] + word_range() * t[4]);
    assert(a[5] == a1[5] + a2[5] + word_range() * t[5]);
    assert(a[6] == a1[6] + a2[6] + word_range() * t[6]);
    assert(a[7] == a1[7] + a2[7] + word_range() * t[7]);
    lemma_term_left(a[0], a1[0], a2[0], t[0], b[0]);
    lemma_term_left(a[0], a1[0], a2[0], t[0], b[1]);
    lemma_term_left(a[0], a1[0], a2[0], t[0], b[2]);
    lemma_term_left(a[0], a1[0], a2[0], t[0], b[3]);
    lemma_term_left(a[0], a1[0], a2[0], t[0], b[4]);
    lemma_term_left(a[0], a1[0], a2[0], t[0], b[5]);
    lemma_term_left(a[0], a1[0], a2[0], t[0], b[6]);
    lemma_term_left(a[0], a1[0], a2[0], t[0], b[7]);
    lemma_term_left(a[1], a1[1], a2[1], t[1], b[0]);
    lemma_term_left(a[1], a1[1], a2[1], t[1], b[1]);
    lemma_term_left(a[1], a1[1], a2[1], t[1], b[2]);
    lemma_term_left(a[1], a1[1], a2[1], t[1], b[3]);
    lemma_term_left(a[1], a1[1], a2[1], t[1], b[4]);
    lemma_term_left(a[1], a1[1], a2[1], t[1], b[5]);
    lemma_term_left(a[1], a1[1], a2[1], t[1], b[6]);
    lemma_term_left(a[1], a1[1], a2[1], t[1], b[7]);
    lemma_term_left(a[2], a1[2], a2[2], t[2], b[0]);
    lemma_term_left(a[2], a1[2], a2[2], t[2], b[1]);
    lemma_term_left(a[2], a1[2], a2[2], t[2], b[2]);
    lemma_term_left(a[2], a1[2], a2[2], t[2], b[3]);
    lemma_term_left(a[2], a1[2], a2[2], t[2], b[4]);
    lemma_term_left(a[2], a1[2], a2[2], t[2], b[5]);
    lemma_term_left(a[2], a1[2], a2[2], t[2], b[6]);
    lemma_term_left(a[2], a1[2], a2[2], t[2], b[7]);
    lemma_term_left(a[3], a1[3], a2[3], t[3], b[0]);
    lemma_term_left(a[3], a1[3], a2[3], t[3], b[1]);
    lemma_term_left(a[3], a1[3], a2[3], t[3], b[2]);
    lemma_term_left(a[3], a1[3], a2[3], t[3], b[3]);
    lemma_term_left(a[3], a1[3], a2[3], t[3], b[4]);
    lemma_term_left(a[3], a1[3], a2[3], t[3], b[5]);
    lemma_term_left(a[3], a1[3], a2[3], t[3], b[6]);
    lemma_term_left(a[3], a1[3], a2[3], t[3], b[7]);
    lemma_term_left(a[4], a1[4], a2[4], t[4], b[0]);
    lemma_term_left(a[4], a1[4], a2[4], t[4], b[1]);
    lemma_term_left(a[4], a1[4], a2[4], t[4], b[2]);
    lemma_term_left(a[4], a1[4], a2[4], t[4], b[3]);
    lemma_term_left(a[4], a1[4], a2[4], t[4], b[4]);
    lemma_term_left(a[4], a1[4], a2[4], t[4], b[5]);
    lemma_term_left(a[4], a1[4], a2[4], t[4], b[6]);
    lemma_term_left(a[4], a1[4], a2[4], t[4], b[7]);
    lemma_term_left(a[5], a1[5], a2[5], t[5], b[0]);
    lemma_term_left(a[5], a1[5], a2[5], t[5], b[1]);
    lemma_term_left(a[5], a1[5], a2[5], t[5], b[2]);
    lemma_term_left(a[5], a1[5], a2[5], t[5], b[3]);
    lemma_term_left(a[5], a1[5], a2[5], t[5], b[4]);
    lemma_term_left(a[5], a1[5], a2[5], t[5], b[5]);
    lemma_term_left(a[5], a1[5], a2[5], t[5], b[6]);
    lemma_term_left(a[5], a1[5], a2[5], t[5], b[7]);
    lemma_term_left(a[6], a1[6], a2[6], t[6], b[0]);
    lemma_term_left(a[6], a1[6], a2[6], t[6], b[1]);
    lemma_term_left(a[6], a1[6], a2[6], t[6], b[2]);
    lemma_term_left(a[6], a1[6], a2[6], t[6], b[3]);
    lemma_term_left(a[6], a1[6], a2[6], t[6], b[4]);
    lemma_term_left(a[6], a1[6], a2[6], t[6], b[5]);
    lemma_term_left(a[6], a1[6], a2[6], t[6], b[6]);
    lemma_term_left(a[6], a1[6], a2[6], t[6], b[7]);
    lemma_term_left(a[7], a1[7], a2[7], t[7], b[0]);
    lemma_term_left(a[7], a1[7], a2[7], t[7], b[1]);
    lemma_term_left(a[7], a1[7], a2[7], t[7], b[2]);
    lemma_term_left(a[7], a1[7], a2[7], t[7], b[3]);
    lemma_term_left(a[7], a1[7], a2[7], t[7], b[4]);
    lemma_term_left(a[7], a1[7], a2[7], t[7], b[5]);
    lemma_term_left(a[7], a1[7], a2[7], t[7], b[6]);
    lemma_term_left(a[7], a1[7], a2[7], t[7], b[7]);
}

/// Each component of the product is additive in the right factor, over the integers.
proof fn lemma_component_add_right(a: Seq<int>, b: Seq<int>, b1: Seq<int>, b2: Seq<int>, t: Seq<int>, k: int)
    requires
        sum_up_to_wrap(b, b1, b2, t),
        0 <= k < 8,
    ensures
        oct_component(a, b, k) == oct_component(a, b1, k) + oct_component(a, b2, k) + word_range()
            * oct_component(a, t, k),
{
    assert(b[0] == b1[0] + b2[0] + word_range() * t[0]);
    assert(b[1] == b1[1] + b2[1] + word_range() * t[1]);
    assert(b[2] == b1[2] + b2[2] + word_range() * t[2]);
    assert(b[3] == b1[3] + b2[3] + word_range() * t[3]);
    assert(b[4] == b1[4] + b2[4] + word_range() * t[4]);
    assert(b[5] == b1[5] + b2[5] + word_range() * t[5]);
    assert(b[6] == b1[6] + b2[6] + word_range() * t[6]);
    assert(b[7] == b1[7] + b2[7] + word_range() * t[7]);
    lemma_term_right(b[0], b1[0], b2[0], t[0], a[0]);
    lemma_term_right(b[1], b1[1], b2[1], t[1], a[0]);
    lemma_term_right(b[2], b1[2], b2[2], t[2], a[0]);
    lemma_term_right(b[3], b1[3], b2[3], t[3], a[0]);
    lemma_term_right(b[4], b1[4], b2[4], t[4], a[0]);
    lemma_term_right(b[5], b1[5], b2[5], t[5], a[0]);
    lemma_term_right(b[6], b1[6], b2[6], t[6], a[0]);
    lemma_term_right(b[7], b1[7], b2[7], t[7], a[0]);
    lemma_term_right(b[0], b1[0], b2[0], t[0], a[1]);
    lemma_term_right(b[1], b1[1], b2[1], t[1], a[1]);
    lemma_term_right(b[2], b1[2], b2[2], t[2], a[1]);
    lemma_term_right(b[3], b1[3], b2[3], t[3], a[1]);
    lemma_term_right(b[4], b1[4], b2[4], t[4], a[1]);
    lemma_term_right(b[5], b1[5], b2[5], t[5], a[1]);
    lemma_term_right(b[6], b1[6], b2[6], t[6], a[1]);
    lemma_term_right(b[7], b1[7], b2[7], t[7], a[1]);
    lemma_term_right(b[0], b1[0], b2[0], t[0], a[2]);
    lemma_term_right(b[1], b1[1], b2[1], t[1], a[2]);
    lemma_term_right(b[2], b1[2], b2[2], t[2], a[2]);
    lemma_term_right(b[3], b1[3], b2[3], t[3], a[2]);
    lemma_term_right(b[4], b1[4], b2[4], t[4], a[2]);
    lemma_term_right(b[5], b1[5], b2[5], t[5], a[2]);
    lemma_term_right(b[6], b1[6], b2[6], t[6], a[2]);
    lemma_term_right(b[7], b1[7], b2[7], t[7], a[2]);
    lemma_term_right(b[0], b1[0], b2[0], t[0], a[3]);
    lemma_term_right(b[1], b1[1], b2[1], t[1], a[3]);
    lemma_term_right(b[2], b1[2], b2[2], t[2], a[3]);
    lemma_term_right(b[3], b1[3], b2[3], t[3], a[3]);
    lemma_term_right(b[4], b1[4], b2[4], t[4], a[3]);
    lemma_term_right(b[5], b1[5], b2[5], t[5], a[3]);
    lemma_term_right(b[6], b1[6], b2[6], t[6], a[3]);
    lemma_term_right(b[7], b1[7], b2[7], t[7], a[3]);
    lemma_term_right(b[0], b1[0], b2[0], t[0], a[4]);
    lemma_term_right(b[1], b1[1], b2[1], t[1], a[4]);
    lemma_term_right(b[2], b1[2], b2[2], t[2], a[4]);
    lemma_term_right(b[3], b1[3], b2[3], t[3], a[4]);
    lemma_term_right(b[4], b1[4], b2[4], t[4], a[4]);
    lemma_term_right(b[5], b1[5], b2[5], t[5], a[4]);
    lemma_term_right(b[6], b1[6], b2[6], t[6], a[4]);
    lemma_term_right(b[7], b1[7], b2[7], t[7], a[4]);
    lemma_term_right(b[0], b1[0], b2[0], t[0], a[5]);
    lemma_term_right(b[1], b1[1], b2[1], t[1], a[5]);
    lemma_term_right(b[2], b1[2], b2[2], t[2], a[5]);
    lemma_term_right(b[3], b1[3], b2[3], t[3], a[5]);
    lemma_term_right(b[4], b1[4], b2[4], t[4], a[5]);
    lemma_term_right(b[5], b1[5], b2[5], t[5], a[5]);
    lemma_term_right(b[6], b1[6], b2[6], t[6], a[5]);
    lemma_term_right(b[7], b1[7], b2[7], t[7], a[5]);
    lemma_term_right(b[0], b1[0], b2[0], t[0], a[6]);
    lemma_term_right(b[1], b1[1], b2[1], t[1], a[6]);
    lemma_term_right(b[2], b1[2], b2[2], t[2], a[6]);
    lemma_term_right(b[3], b1[3], b2[3], t[3], a[6]);
    lemma_term_right(b[4], b1[4], b2[4], t[4], a[6]);
    lemma_term_right(b[5], b1[5], b2[5], t[5], a[6]);
    lemma_term_right(b[6], b1[6], b2[6], t[6], a[6]);
    lemma_term_right(b[7], b1[7], b2[7], t[7], a[6]);
    lemma_term_right(b[0], b1[0], b2[0], t[0], a[7]);
    lemma_term_right(b[1], b1[1], b2[1], t[1], a[7]);
    lemma_term_right(b[2], b1[2], b2[2], t[2], a[7]);
    lemma_term_right(b[3], b1[3], b2[3], t[3], a[7]);
    lemma_term_right(b[4], b1[4], b2[4], t[4], a[7]);
    lemma_term_right(b[5], b1[5], b2[5], t[5], a[7]);
    lemma_term_right(b[6], b1[6], b2[6], t[6], a[7]);
    lemma_term_right(b[7], b1[7], b2[7], t[7], a[7]);
}

proof fn lemma_term_scale_left(p: int, q: int, w: int, c: int)
    requires
        p == c * q,
    ensures
        p * w == c * (q * w),
{
    assert(p * w == c * (q * w)) by (nonlinear_arith)
        requires
            p == c * q,
    ;
}

proof fn lemma_term_scale_right(p: int, q: int, w: int, c: int)
    requires
        p == c * q,
    ensures
        w * p == c * (w * q),
{
    assert(w * p == c * (w * q)) by (nonlinear_arith)
        requires
            p == c * q,
    ;
}

/// Scaling the left factor by `c` scales each component by `c`, over the integers.
proof fn lemma_component_scale_left(a: Seq<int>, ca: Seq<int>, b: Seq<int>, c: int, k: int)
    requires
        forall|i: int| 0 <= i < 8 ==> #[trigger] ca[i] == c * a[i],
        0 <= k < 8,
    ensures
        oct_component(ca, b, k) == c * oct_component(a, b, k),
{
    if k == 0 {
        lemma_term_scale_left(ca[0], a[0], b[0], c);
        lemma_term_scale_left(ca[1], a[1], b[1], c);
        vstd::arithmetic::mul::lemma_mul_is_distributive_sub(c, a[0] * b[0], a[1] * b[1]);
        lemma_term_scale_left(ca[2], a[2], b[2], c);
        vstd::arithmetic::mul::lemma_mul_is_distributive_sub(c, a[0] * b[0] - a[1] * b[1], a[2] * b[2]);
        lemma_term_scale_left(ca[3], a[3], b[3], c);
        vstd::arithmetic::mul::lemma_mul_is_distributive_sub(c, a[0] * b[0] - a[1] * b[1] - a[2] * b[2], a[3] * b[3]);
        lemma_term_scale_left(ca[4], a[4], b[4], c);
        vstd::arithmetic::mul::lemma_mul_is_distributive_sub(c, a[0] * b[0] - a[1] * b[1] - a[2] * b[2] - a[3] * b[3], a[4] * b[4]);
        lemma_term_scale_left(ca[5], a[5], b[5], c);
        vstd::arithmetic::mul::lemma_mul_is_distributive_sub(c, a[0] * b[0] - a[1] * b[1] - a[2] * b[2] - a[3] * b[3] - a[4] * b[4], a[5] * b[5]);
        lemma_term_scale_left(ca[6], a[6], b[6], c);
        vstd::arithmetic::mul::lemma_mul_is_distributive_sub(c, a[0] * b[0] - a[1] * b[1] - a[2] * b[2] - a[3] * b[3] - a[4] * b[4] - a[5] * b[5], a[6] * b[6]);
        lemma_term_scale_left(ca[7], a[7], b[7], c);
        vstd::arithmetic::mul::lemma_mul_is_distributive_sub(c, a[0] * b[0] - a[1] * b[1] - a[2] * b[2] - a[3] * b[3] - a[4] * b[4] - a[5] * b[5] - a[6] * b[6], a[7] * b[7]);
        assert(ca[0] * b[0] - ca[1] * b[1] - ca[2] * b[2] - ca[3] * b[3] - ca[4] * b[4] - ca[5] * b[5] - ca[6] * b[6] - ca[7] * b[7] == c * (a[0] * b[0] - a[1] * b[1] - a[2] * b[2] - a[3] * b[3] - a[4] * b[4] - a[5] * b[5] - a[6] * b[6] - a[7] * b[7]));
    } else if k == 1 {
        lemma_term_scale_left(ca[0], a[0], b[1], c);
        lemma_term_scale_left(ca[1], a[1], b[0], c);
        vstd::arithmetic::mul::lemma_mul_is_distributive_add(c, a[0] * b[1], a[1] * b[0]);
        lemma_term_scale_left(ca[2], a[2], b[3], c);
        vstd::arithmetic::mul::lemma_mul_is_distributive_add(c, a[0] * b[1] + a[1] * b[0], a[2] * b[3]);
        lemma_term_scale_left(ca[3], a[3], b[2], c);
        vstd::arithmetic::mul::lemma_mul_is_distributive_sub(c, a[0] * b[1] + a[1] * b[0] + a[2] * b[3], a[3] * b[2]);
        lemma_term_scale_left(ca[4], a[4], b[5], c);
        vstd::arithmetic::mul::lemma_mul_is_distributive_add(c, a[0] * b[1] + a[1] * b[0] + a[2] * b[3] - a[3] * b[2], a[4] * b[5]);
        lemma_term_scale_left(ca[5], a[5], b[4], c);
        vstd::arithmetic::mul::lemma_mul_is_distributive_sub(c, a[0] * b[1] + a[1] * b[0] + a[2] * b[3] - a[3] * b[2] + a[4] * b[5], a[5] * b[4]);
        lemma_term_scale_left(ca[6], a[6], b[7], c);
        vstd::arithmetic::mul::lemma_mul_is_distributive_sub(c, a[0] * b[1] + a[1] * b[0] + a[2] * b[3] - a[3] * b[2] + a[4] * b[5] - a[5] * b[4], a[6] * b[7]);
        lemma_term_scale_left(ca[7], a[7], b[6], c);
        vstd::arithmetic::mul::lemma_mul_is_distributive_add(c, a[0] * b[1] + a[1] * b[0] + a[2] * b[3] - a[3] * b[2] + a[4] * b[5] - a[5] * b[4] - a[6] * b[7], a[7] * b[6]);
        assert(ca[0] * b[1] + ca[1] * b[0] + ca[2] * b[3] - ca[3] * b[2] + ca[4] * b[5] - ca[5] * b[4] - ca[6] * b[7] + ca[7] * b[6] == c * (a[0] * b[1] + a[1] * b[0] + a[2] * b[3] - a[3] * b[2] + a[4] * b[5] - a[5] * b[4] - a[6] * b[7] + a[7] * b[6]));
    } else if k == 2 {
        lemma_term_scale_left(ca[0], a[0], b[2], c);
        lemma_term_scale_left(ca[1], a[1], b[3], c);
        vstd::arithmetic::mul::lemma_mul_is_distributive_sub(c, a[0] * b[2], a[1] * b[3]);
        lemma_term_scale_left(ca[2], a[2], b[0], c);
        vstd::arithmetic::mul::lemma_mul_is_distributive_add(c, a[0] * b[2] - a[1] * b[3], a[2] * b[0]);
        lemma_term_scale_left(ca[3], a[3], b[1], c);
        vstd::arithmetic::mul::lemma_mul_is_distributive_add(c, a[0] * b[2] - a[1] * b[3] + a[2] * b[0], a[3] * b[1]);
        lemma_term_scale_left(ca[4], a[4], b[6], c);
        vstd::arithmetic::mul::lemma_mul_is_distributive_add(c, a[0] * b[2] - a[1] * b[3] + a[2] * b[0] + a[3] * b[1], a[4] * b[6]);
        lemma_term_scale_left(ca[5], a[5], b[7], c);
        vstd::arithmetic::mul::lemma_mul_is_distributive_sub(c, a[0] * b[2] - a[1] * b[3] + a[2] * b[0] + a[3] * b[1] + a[4] * b[6], a[5] * b[7]);
        lemma_term_scale_left(ca[6], a[6], b[4], c);
        vstd::arithmetic::mul::lemma_mul_is_distributive_add(c, a[0] * b[2] - a[1] * b[3] + a[2] * b[0] + a[3] * b[1] + a[4] * b[6] - a[5] * b[7], a[6] * b[4]);
        lemma_term_scale_left(ca[7], a[7], b[5], c);
        vstd::arithmetic::mul::lemma_mul_is_distributive_sub(c, a[0] * b[2] - a[1] * b[3] + a[2] * b[0] + a[3] * b[1] + a[4] * b[6] - a[5] * b[7] + a[6] * b[4], a[7] * b[5]);
        assert(ca[0] * b[2] - ca[1] * b[3] + ca[2] * b[0] + ca[3] * b[1] + ca[4] * b[6] - ca[5] * b[7] + ca[6] * b[4] - ca[7] * b[5] == c * (a[0] * b[2] - a[1] * b[3] + a[2] * b[0] + a[3] * b[1] + a[4] * b[6] - a[5] * b[7] + a[6] * b[4] - a[7] * b[5]));
    } else if k == 3 {
        lemma_term_scale_left(ca[0], a[0], b[3], c);
        lemma_term_scale_left(ca[1], a[1], b[2], c);
        vstd::arithmetic::mul::lemma_mul_is_distributive_add(c, a[0] * b[3], a[1] * b[2]);
        lemma_term_scale_left(ca[2], a[2], b[1], c);
        vstd::arithmetic::mul::lemma_mul_is_distributive_sub(c, a[0] * b[3] + a[1] * b[2], a[2] * b[1]);
        lemma_term_scale_left(ca[3], a[3], b[0], c);
        vstd::arithmetic::mul::lemma_mul_is_distributive_add(c, a[0] * b[3] + a[1] * b[2] - a[2] * b[1], a[3] * b[0]);
        lemma_term_scale_left(ca[4], a[4], b[7], c);
        vstd::arithmetic::mul::lemma_mul_is_distributive_add(c, a[0] * b[3] + a[1] * b[2] - a[2] * b[1] + a[3] * b[0], a[4] * b[7]);
        lemma_term_scale_left(ca[5], a[5], b[6], c);
        vstd::arithmetic::mul::lemma_mul_is_distributive_add(c, a[0] * b[3] + a[1] * b[2] - a[2] * b[1] + a[3] * b[0] + a[4] * b[7], a[5] * b[6]);
        lemma_term_scale_left(ca[6], a[6], b[5], c);
        vstd::arithmetic::mul::lemma_mul_is_distributive_sub(c, a[0] * b[3] + a[1] * b[2] - a[2] * b[1] + a[3] * b[0] + a[4] * b[7] + a[5] * b[6], a[6] * b[5]);
        lemma_term_scale_left(ca[7], a[7], b[4], c);
        vstd::arithmetic::mul::lemma_mul_is_distributive_add(c, a[0] * b[3] + a[1] * b[2] - a[2] * b[1] + a[3] * b[0] + a[4] * b[7] + a[5] * b[6] - a[6] * b[5], a[7] * b[4]);
        assert(ca[0] * b[3] + ca[1] * b[2] - ca[2] * b[1] + ca[3] * b[0] + ca[4] * b[7] + ca[5] * b[6] - ca[6] * b[5] + ca[7] * b[4] == c * (a[0] * b[3] + a[1] * b[2] - a[2] * b[1] + a[3] * b[0] + a[4] * b[7] + a[5] * b[6] - a[6] * b[5] + a[7] * b[4]));
    } else if k == 4 {
        lemma_term_scale_left(ca[0], a[0], b[4], c);
        lemma_term_scale_left(ca[1], a[1], b[5], c);
        vstd::arithmetic::mul::lemma_mul_is_distributive_sub(c, a[0] * b[4], a[1] * b[5]);
        lemma_term_scale_left(ca[2], a[2], b[6], c);
        vstd::arithmetic::mul::lemma_mul_is_distributive_sub(c, a[0] * b[4] - a[1] * b[5], a[2] * b[6]);
        lemma_term_scale_left(ca[3], a[3], b[7], c);
        vstd::arithmetic::mul::lemma_mul_is_distributive_sub(c, a[0] * b[4] - a[1] * b[5] - a[2] * b[6], a[3] * b[7]);
        lemma_term_scale_left(ca[4], a[4], b[0], c);
        vstd::arithmetic::mul::lemma_mul_is_distributive_add(c, a[0] * b[4] - a[1] * b[5] - a[2] * b[6] - a[3] * b[7], a[4] * b[0]);
        lemma_term_scale_left(ca[5], a[5], b[1], c);
        vstd::arithmetic::mul::lemma_mul_is_distributive_add(c, a[0] * b[4] - a[1] * b[5] - a[2] * b[6] - a[3] * b[7] + a[4] * b[0], a[5] * b[1]);
        lemma_term_scale_left(ca[6], a[6], b[2], c);
        vstd::arithmetic::mul::lemma_mul_is_distributive_add(c, a[0] * b[4] - a[1] * b[5] - a[2] * b[6] - a[3] * b[7] + a[4] * b[0] + a[5] * b[1], a[6] * b[2]);
        lemma_term_scale_left(ca[7], a[7], b[3], c);
        vstd::arithmetic::mul::lemma_mul_is_distributive_add(c, a[0] * b[4] - a[1] * b[5] - a[2] * b[6] - a[3] * b[7] + a[4] * b[0] + a[5] * b[1] + a[6] * b[2], a[7] * b[3]);
        assert(ca[0] * b[4] - ca[1] * b[5] - ca[2] * b[6] - ca[3] * b[7] + ca[4] * b[0] + ca[5] * b[1] + ca[6] * b[2] + ca[7] * b[3] == c * (a[0] * b[4] - a[1] * b[5] - a[2] * b[6] - a[3] * b[7] + a[4] * b[0] + a[5] * b[1] + a[6] * b[2] + a[7] * b[3]));
    } else if k == 5 {
        lemma_term_scale_left(ca[0], a[0], b[5], c);
        lemma_term_scale_left(ca[1], a[1], b[4], c);
        vstd::arithmetic::mul::lemma_mul_is_distributive_add(c, a[0] * b[5], a[1] * b[4]);
        lemma_term_scale_left(ca[2], a[2], b[7], c);
        vstd::arithmetic::mul::lemma_mul_is_distributive_sub(c, a[0] * b[5] + a[1] * b[4], a[2] * b[7]);
        lemma_term_scale_left(ca[3], a[3], b[6], c);
        vstd::arithmetic::mul::lemma_mul_is_distributive_add(c, a[0] * b[5] + a[1] * b[4] - a[2] * b[7], a[3] * b[6]);
        lemma_term_scale_left(ca[4], a[4], b[1], c);
        vstd::arithmetic::mul::lemma_mul_is_distributive_sub(c, a[0] * b[5] + a[1] * b[4] - a[2] * b[7] + a[3] * b[6], a[4] * b[1]);
        lemma_term_scale_left(ca[5], a[5], b[0], c);
        vstd::arithmetic::mul::lemma_mul_is_distributive_add(c, a[0] * b[5] + a[1] * b[4] - a[2] * b[7] + a[3] * b[6] - a[4] * b[1], a[5] * b[0]);
        lemma_term_scale_left(ca[6], a[6], b[3], c);
        vstd::arithmetic::mul::lemma_mul_is_distributive_add(c, a[0] * b[5] + a[1] * b[4] - a[2] * b[7] + a[3] * b[6] - a[4] * b[1] + a[5] * b[0], a[6] * b[3]);
        lemma_term_scale_left(ca[7], a[7], b[2], c);
        vstd::arithmetic::mul::lemma_mul_is_distributive_add(c, a[0] * b[5] + a[1] * b[4] - a[2] * b[7] + a[3] * b[6] - a[4] * b[1] + a[5] * b[0] + a[6] * b[3], a[7] * b[2]);
        assert(ca[0] * b[5] + ca[1] * b[4] - ca[2] * b[7] + ca[3] * b[6] - ca[4] * b[1] + ca[5] * b[0] + ca[6] * b[3] + ca[7] * b[2] == c * (a[0] * b[5] + a[1] * b[4] - a[2] * b[7] + a[3] * b[6] - a[4] * b[1] + a[5] * b[0] + a[6] * b[3] + a[7] * b[2]));
    } else if k == 6 {
        lemma_term_scale_left(ca[0], a[0], b[6], c);
        lemma_term_scale_left(ca[1], a[1], b[7], c);
        vstd::arithmetic::mul::lemma_mul_is_distributive_add(c, a[0] * b[6], a[1] * b[7]);
        lemma_term_scale_left(ca[2], a[2], b[4], c);
        vstd::arithmetic::mul::lemma_mul_is_distributive_add(c, a[0] * b[6] + a[1] * b[7], a[2] * b[4]);
        lemma_term_scale_left(ca[3], a[3], b[5], c);
        vstd::arithmetic::mul::lemma_mul_is_distributive_sub(c, a[0] * b[6] + a[1] * b[7] + a[2] * b[4], a[3] * b[5]);
        lemma_term_scale_left(ca[4], a[4], b[2], c);
        vstd::arithmetic::mul::lemma_mul_is_distributive_sub(c, a[0] * b[6] + a[1] * b[7] + a[2] * b[4] - a[3] * b[5], a[4] * b[2]);
        lemma_term_scale_left(ca[5], a[5], b[3], c);
        vstd::arithmetic::mul::lemma_mul_is_distributive_add(c, a[0] * b[6] + a[1] * b[7] + a[2] * b[4] - a[3] * b[5] - a[4] * b[2], a[5] * b[3]);
        lemma_term_scale_left(ca[6], a[6], b[0], c);
        vstd::arithmetic::mul::lemma_mul_is_distributive_add(c, a[0] * b[6] + a[1] * b[7] + a[2] * b[4] - a[3] * b[5] - a[4] * b[2] + a[5] * b[3], a[6] * b[0]);
        lemma_term_scale_left(ca[7], a[7], b[1], c);
        vstd::arithmetic::mul::lemma_mul_is_distributive_add(c, a[0] * b[6] + a[1] * b[7] + a[2] * b[4] - a[3] * b[5] - a[4] * b[2] + a[5] * b[3] + a[6] * b[0], a[7] * b[1]);
        assert(ca[0] * b[6] + ca[1] * b[7] + ca[2] * b[4] - ca[3] * b[5] - ca[4] * b[2] + ca[5] * b[3] + ca[6] * b[0] + ca[7] * b[1] == c * (a[0] * b[6] + a[1] * b[7] + a[2] * b[4] - a[3] * b[5] - a[4] * b[2] + a[5] * b[3] + a[6] * b[0] + a[7] * b[1]));
    } else if k == 7 {
        lemma_term_scale_left(ca[0], a[0], b[7], c);
        lemma_term_scale_left(ca[1], a[1], b[6], c);
        vstd::arithmetic::mul::lemma_mul_is_distributive_sub(c, a[0] * b[7], a[1] * b[6]);
        lemma_term_scale_left(ca[2], a[2], b[5], c);
        vstd::arithmetic::mul::lemma_mul_is_distributive_add(c, a[0] * b[7] - a[1] * b[6], a[2] * b[5]);
        lemma_term_scale_left(ca[3], a[3], b[4], c);
        vstd::arithmetic::mul::lemma_mul_is_distributive_add(c, a[0] * b[7] - a[1] * b[6] + a[2] * b[5], a[3] * b[4]);
        lemma_term_scale_left(ca[4], a[4], b[3], c);
        vstd::arithmetic::mul::lemma_mul_is_distributive_sub(c, a[0] * b[7] - a[1] * b[6] + a[2] * b[5] + a[3] * b[4], a[4] * b[3]);
        lemma_term_scale_left(ca[5], a[5], b[2], c);
        vstd::arithmetic::mul::lemma_mul_is_distributive_add(c, a[0] * b[7] - a[1] * b[6] + a[2] * b[5] + a[3] * b[4] - a[4] * b[3], a[5] * b[2]);
        lemma_term_scale_left(ca[6], a[6], b[1], c);
        vstd::arithmetic::mul::lemma_mul_is_distributive_add(c, a[0] * b[7] - a[1] * b[6] + a[2] * b[5] + a[3] * b[4] - a[4] * b[3] + a[5] * b[2], a[6] * b[1]);
        lemma_term_scale_left(ca[7], a[7], b[0], c);
        vstd::arithmetic::mul::lemma_mul_is_distributive_add(c, a[0] * b[7] - a[1] * b[6] + a[2] * b[5] + a[3] * b[4] - a[4] * b[3] + a[5] * b[2] + a[6] * b[1], a[7] * b[0]);
        assert(ca[0] * b[7] - ca[1] * b[6] + ca[2] * b[5] + ca[3] * b[4] - ca[4] * b[3] + ca[5] * b[2] + ca[6] * b[1] + ca[7] * b[0] == c * (a[0] * b[7] - a[1] * b[6] + a[2] * b[5] + a[3] * b[4] - a[4] * b[3] + a[5] * b[2] + a[6] * b[1] + a[7] * b[0]));
    }
}

/// Scaling the right factor by `c` scales each component by `c`, over the integers.
proof fn lemma_component_scale_right(a: Seq<int>, b: Seq<int>, cb: Seq<int>, c: int, k: int)
    requires
        forall|i: int| 0 <= i < 8 ==> #[trigger] cb[i] == c * b[i],
        0 <= k < 8,
    ensures
        oct_component(a, cb, k) == c * oct_component(a, b, k),
{
    if k == 0 {
        lemma_term_scale_right(cb[0], b[0], a[0], c);
        lemma_term_scale_right(cb[1], b[1], a[1], c);
        vstd::arithmetic::mul::lemma_mul_is_distributive_sub(c, a[0] * b[0], a[1] * b[1]);
        lemma_term_scale_right(cb[2], b[2], a[2], c);
        vstd::arithmetic::mul::lemma_mul_is_distributive_sub(c, a[0] * b[0] - a[1] * b[1], a[2] * b[2]);
        lemma_term_scale_right(cb[3], b[3], a[3], c);
        vstd::arithmetic::mul::lemma_mul_is_distributive_sub(c, a[0] * b[0] - a[1] * b[1] - a[2] * b[2], a[3] * b[3]);
        lemma_term_scale_right(cb[4], b[4], a[4], c);
        vstd::arithmetic::mul::lemma_mul_is_distributive_sub(c, a[0] * b[0] - a[1] * b[1] - a[2] * b[2] - a[3] * b[3], a[4] * b[4]);
        lemma_term_scale_right(cb[5], b[5], a[5], c);
        vstd::arithmetic::mul::lemma_mul_is_distributive_sub(c, a[0] * b[0] - a[1] * b[1] - a[2] * b[2] - a[3] * b[3] - a[4] * b[4], a[5] * b[5]);
        lemma_term_scale_right(cb[6], b[6], a[6], c);
        vstd::arithmetic::mul::lemma_mul_is_distributive_sub(c, a[0] * b[0] - a[1] * b[1] - a[2] * b[2] - a[3] * b[3] - a[4] * b[4] - a[5] * b[5], a[6] * b[6]);
        lemma_term_scale_right(cb[7], b[7], a[7], c);
        vstd::arithmetic::mul::lemma_mul_is_distributive_sub(c, a[0] * b[0] - a[1] * b[1] - a[2] * b[2] - a[3] * b[3] - a[4] * b[4] - a[5] * b[5] - a[6] * b[6], a[7] * b[7]);
        assert(a[0] * cb[0] - a[1] * cb[1] - a[2] * cb[2] - a[3] * cb[3] - a[4] * cb[4] - a[5] * cb[5] - a[6] * cb[6] - a[7] * cb[7] == c * (a[0] * b[0] - a[1] * b[1] - a[2] * b[2] - a[3] * b[3] - a[4] * b[4] - a[5] * b[5] - a[6] * b[6] - a[7] * b[7]));
    } else if k == 1 {
        lemma_term_scale_right(cb[1], b[1], a[0], c);
        lemma_term_scale_right(cb[0], b[0], a[1], c);
        vstd::arithmetic::mul::lemma_mul_is_distributive_add(c, a[0] * b[1], a[1] * b[0]);
        lemma_term_scale_right(cb[3], b[3], a[2], c);
        vstd::arithmetic::mul::lemma_mul_is_distributive_add(c, a[0] * b[1] + a[1] * b[0], a[2] * b[3]);
        lemma_term_scale_right(cb[2], b[2], a[3], c);
        vstd::arithmetic::mul::lemma_mul_is_distributive_sub(c, a[0] * b[1] + a[1] * b[0] + a[2] * b[3], a[3] * b[2]);
        lemma_term_scale_right(cb[5], b[5], a[4], c);
        vstd::arithmetic::mul::lemma_mul_is_distributive_add(c, a[0] * b[1] + a[1] * b[0] + a[2] * b[3] - a[3] * b[2], a[4] * b[5]);
        lemma_term_scale_right(cb[4], b[4], a[5], c);
        vstd::arithmetic::mul::lemma_mul_is_distributive_sub(c, a[0] * b[1] + a[1] * b[0] + a[2] * b[3] - a[3] * b[2] + a[4] * b[5], a[5] * b[4]);
        lemma_term_scale_right(cb[7], b[7], a[6], c);
        vstd::arithmetic::mul::lemma_mul_is_distributive_sub(c, a[0] * b[1] + a[1] * b[0] + a[2] * b[3] - a[3] * b[2] + a[4] * b[5] - a[5] * b[4], a[6] * b[7]);
        lemma_term_scale_right(cb[6], b[6], a[7], c);
        vstd::arithmetic::mul::lemma_mul_is_distributive_add(c, a[0] * b[1] + a[1] * b[0] + a[2] * b[3] - a[3] * b[2] + a[4] * b[5] - a[5] * b[4] - a[6] * b[7], a[7] * b[6]);
        assert(a[0] * cb[1] + a[1] * cb[0] + a[2] * cb[3] - a[3] * cb[2] + a[4] * cb[5] - a[5] * cb[4] - a[6] * cb[7] + a[7] * cb[6] == c * (a[0] * b[1] + a[1] * b[0] + a[2] * b[3] - a[3] * b[2] + a[4] * b[5] - a[5] * b[4] - a[6] * b[7] + a[7] * b[6]));
    } else if k == 2 {
        lemma_term_scale_right(cb[2], b[2], a[0], c);
        lemma_term_scale_right(cb[3], b[3], a[1], c);
        vstd::arithmetic::mul::lemma_mul_is_distributive_sub(c, a[0] * b[2], a[1] * b[3]);
        lemma_term_scale_right(cb[0], b[0], a[2], c);
        vstd::arithmetic::mul::lemma_mul_is_distributive_add(c, a[0] * b[2] - a[1] * b[3], a[2] * b[0]);
        lemma_term_scale_right(cb[1], b[1], a[3], c);
        vstd::arithmetic::mul::lemma_mul_is_distributive_add(c, a[0] * b[2] - a[1] * b[3] + a[2] * b[0], a[3] * b[1]);
        lemma_term_scale_right(cb[6], b[6], a[4], c);
        vstd::arithmetic::mul::lemma_mul_is_distributive_add(c, a[0] * b[2] - a[1] * b[3] + a[2] * b[0] + a[3] * b[1], a[4] * b[6]);
        lemma_term_scale_right(cb[7], b[7], a[5], c);
        vstd::arithmetic::mul::lemma_mul_is_distributive_sub(c, a[0] * b[2] - a[1] * b[3] + a[2] * b[0] + a[3] * b[1] + a[4] * b[6], a[5] * b[7]);
        lemma_term_scale_right(cb[4], b[4], a[6], c);
        vstd::arithmetic::mul::lemma_mul_is_distributive_add(c, a[0] * b[2] - a[1] * b[3] + a[2] * b[0] + a[3] * b[1] + a[4] * b[6] - a[5] * b[7], a[6] * b[4]);
        lemma_term_scale_right(cb[5], b[5], a[7], c);
        vstd::arithmetic::mul::lemma_mul_is_distributive_sub(c, a[0] * b[2] - a[1] * b[3] + a[2] * b[0] + a[3] * b[1] + a[4] * b[6] - a[5] * b[7] + a[6] * b[4], a[7] * b[5]);
        assert(a[0] * cb[2] - a[1] * cb[3] + a[2] * cb[0] + a[3] * cb[1] + a[4] * cb[6] - a[5] * cb[7] + a[6] * cb[4] - a[7] * cb[5] == c * (a[0] * b[2] - a[1] * b[3] + a[2] * b[0] + a[3] * b[1] + a[4] * b[6] - a[5] * b[7] + a[6] * b[4] - a[7] * b[5]));
    } else if k == 3 {
        lemma_term_scale_right(cb[3], b[3], a[0], c);
        lemma_term_scale_right(cb[2], b[2], a[1], c);
        vstd::arithmetic::mul::lemma_mul_is_distributive_add(c, a[0] * b[3], a[1] * b[2]);
        lemma_term_scale_right(cb[1], b[1], a[2], c);
        vstd::arithmetic::mul::lemma_mul_is_distributive_sub(c, a[0] * b[3] + a[1] * b[2], a[2] * b[1]);
        lemma_term_scale_right(cb[0], b[0], a[3], c);
        vstd::arithmetic::mul::lemma_mul_is_distributive_add(c, a[0] * b[3] + a[1] * b[2] - a[2] * b[1], a[3] * b[0]);
        lemma_term_scale_right(cb[7], b[7], a[4], c);
        vstd::arithmetic::mul::lemma_mul_is_distributive_add(c, a[0] * b[3] + a[1] * b[2] - a[2] * b[1] + a[3] * b[0], a[4] * b[7]);
        lemma_term_scale_right(cb[6], b[6], a[5], c);
        vstd::arithmetic::mul::lemma_mul_is_distributive_add(c, a[0] * b[3] + a[1] * b[2] - a[2] * b[1] + a[3] * b[0] + a[4] * b[7], a[5] * b[6]);
        lemma_term_scale_right(cb[5], b[5], a[6], c);
        vstd::arithmetic::mul::lemma_mul_is_distributive_sub(c, a[0] * b[3] + a[1] * b[2] - a[2] * b[1] + a[3] * b[0] + a[4] * b[7] + a[5] * b[6], a[6] * b[5]);
        lemma_term_scale_right(cb[4], b[4], a[7], c);
        vstd::arithmetic::mul::lemma_mul_is_distributive_add(c, a[0] * b[3] + a[1] * b[2] - a[2] * b[1] + a[3] * b[0] + a[4] * b[7] + a[5] * b[6] - a[6] * b[5], a[7] * b[4]);
        assert(a[0] * cb[3] + a[1] * cb[2] - a[2] * cb[1] + a[3] * cb[0] + a[4] * cb[7] + a[5] * cb[6] - a[6] * cb[5] + a[7] * cb[4] == c * (a[0] * b[3] + a[1] * b[2] - a[2] * b[1] + a[3] * b[0] + a[4] * b[7] + a[5] * b[6] - a[6] * b[5] + a[7] * b[4]));
    } else if k == 4 {
        lemma_term_scale_right(cb[4], b[4], a[0], c);
        lemma_term_scale_right(cb[5], b[5], a[1], c);
        vstd::arithmetic::mul::lemma_mul_is_distributive_sub(c, a[0] * b[4], a[1] * b[5]);
        lemma_term_scale_right(cb[6], b[6], a[2], c);
        vstd::arithmetic::mul::lemma_mul_is_distributive_sub(c, a[0] * b[4] - a[1] * b[5], a[2] * b[6]);
        lemma_term_scale_right(cb[7], b[7], a[3], c);
        vstd::arithmetic::mul::lemma_mul_is_distributive_sub(c, a[0] * b[4] - a[1] * b[5] - a[2] * b[6], a[3] * b[7]);
        lemma_term_scale_right(cb[0], b[0], a[4], c);
        vstd::arithmetic::mul::lemma_mul_is_distributive_add(c, a[0] * b[4] - a[1] * b[5] - a[2] * b[6] - a[3] * b[7], a[4] * b[0]);
        lemma_term_scale_right(cb[1], b[1], a[5], c);
        vstd::arithmetic::mul::lemma_mul_is_distributive_add(c, a[0] * b[4] - a[1] * b[5] - a[2] * b[6] - a[3] * b[7] + a[4] * b[0], a[5] * b[1]);
        lemma_term_scale_right(cb[2], b[2], a[6], c);
        vstd::arithmetic::mul::lemma_mul_is_distributive_add(c, a[0] * b[4] - a[1] * b[5] - a[2] * b[6] - a[3] * b[7] + a[4] * b[0] + a[5] * b[1], a[6] * b[2]);
        lemma_term_scale_right(cb[3], b[3], a[7], c);
        vstd::arithmetic::mul::lemma_mul_is_distributive_add(c, a[0] * b[4] - a[1] * b[5] - a[2] * b[6] - a[3] * b[7] + a[4] * b[0] + a[5] * b[1] + a[6] * b[2], a[7] * b[3]);
        assert(a[0] * cb[4] - a[1] * cb[5] - a[2] * cb[6] - a[3] * cb[7] + a[4] * cb[0] + a[5] * cb[1] + a[6] * cb[2] + a[7] * cb[3] == c * (a[0] * b[4] - a[1] * b[5] - a[2] * b[6] - a[3] * b[7] + a[4] * b[0] + a[5] * b[1] + a[6] * b[2] + a[7] * b[3]));
    } else if k == 5 {
        lemma_term_scale_right(cb[5], b[5], a[0], c);
        lemma_term_scale_right(cb[4], b[4], a[1], c);
        vstd::arithmetic::mul::lemma_mul_is_distributive_add(c, a[0] * b[5], a[1] * b[4]);
        lemma_term_scale_right(cb[7], b[7], a[2], c);
        vstd::arithmetic::mul::lemma_mul_is_distributive_sub(c, a[0] * b[5] + a[1] * b[4], a[2] * b[7]);
        lemma_term_scale_right(cb[6], b[6], a[3], c);
        vstd::arithmetic::mul::lemma_mul_is_distributive_add(c, a[0] * b[5] + a[1] * b[4] - a[2] * b[7], a[3] * b[6]);
        lemma_term_scale_right(cb[1], b[1], a[4], c);
        vstd::arithmetic::mul::lemma_mul_is_distributive_sub(c, a[0] * b[5] + a[1] * b[4] - a[2] * b[7] + a[3] * b[6], a[4] * b[1]);
        lemma_term_scale_right(cb[0], b[0], a[5], c);
        vstd::arithmetic::mul::lemma_mul_is_distributive_add(c, a[0] * b[5] + a[1] * b[4] - a[2] * b[7] + a[3] * b[6] - a[4] * b[1], a[5] * b[0]);
        lemma_term_scale_right(cb[3], b[3], a[6], c);
        vstd::arithmetic::mul::lemma_mul_is_distributive_add(c, a[0] * b[5] + a[1] * b[4] - a[2] * b[7] + a[3] * b[6] - a[4] * b[1] + a[5] * b[0], a[6] * b[3]);
        lemma_term_scale_right(cb[2], b[2], a[7], c);
        vstd::arithmetic::mul::lemma_mul_is_distributive_add(c, a[0] * b[5] + a[1] * b[4] - a[2] * b[7] + a[3] * b[6] - a[4] * b[1] + a[5] * b[0] + a[6] * b[3], a[7] * b[2]);
        assert(a[0] * cb[5] + a[1] * cb[4] - a[2] * cb[7] + a[3] * cb[6] - a[4] * cb[1] + a[5] * cb[0] + a[6] * cb[3] + a[7] * cb[2] == c * (a[0] * b[5] + a[1] * b[4] - a[2] * b[7] + a[3] * b[6] - a[4] * b[1] + a[5] * b[0] + a[6] * b[3] + a[7] * b[2]));
    } else if k == 6 {
        lemma_term_scale_right(cb[6], b[6], a[0], c);
        lemma_term_scale_right(cb[7], b[7], a[1], c);
        vstd::arithmetic::mul::lemma_mul_is_distributive_add(c, a[0] * b[6], a[1] * b[7]);
        lemma_term_scale_right(cb[4], b[4], a[2], c);
        vstd::arithmetic::mul::lemma_mul_is_distributive_add(c, a[0] * b[6] + a[1] * b[7], a[2] * b[4]);
        lemma_term_scale_right(cb[5], b[5], a[3], c);
        vstd::arithmetic::mul::lemma_mul_is_distributive_sub(c, a[0] * b[6] + a[1] * b[7] + a[2] * b[4], a[3] * b[5]);
        lemma_term_scale_right(cb[2], b[2], a[4], c);
        vstd::arithmetic::mul::lemma_mul_is_distributive_sub(c, a[0] * b[6] + a[1] * b[7] + a[2] * b[4] - a[3] * b[5], a[4] * b[2]);
        lemma_term_scale_right(cb[3], b[3], a[5], c);
        vstd::arithmetic::mul::lemma_mul_is_distributive_add(c, a[0] * b[6] + a[1] * b[7] + a[2] * b[4] - a[3] * b[5] - a[4] * b[2], a[5] * b[3]);
        lemma_term_scale_right(cb[0], b[0], a[6], c);
        vstd::arithmetic::mul::lemma_mul_is_distributive_add(c, a[0] * b[6] + a[1] * b[7] + a[2] * b[4] - a[3] * b[5] - a[4] * b[2] + a[5] * b[3], a[6] * b[0]);
        lemma_term_scale_right(cb[1], b[1], a[7], c);
        vstd::arithmetic::mul::lemma_mul_is_distributive_add(c, a[0] * b[6] + a[1] * b[7] + a[2] * b[4] - a[3] * b[5] - a[4] * b[2] + a[5] * b[3] + a[6] * b[0], a[7] * b[1]);
        assert(a[0] * cb[6] + a[1] * cb[7] + a[2] * cb[4] - a[3] * cb[5] - a[4] * cb[2] + a[5] * cb[3] + a[6] * cb[0] + a[7] * cb[1] == c * (a[0] * b[6] + a[1] * b[7] + a[2] * b[4] - a[3] * b[5] - a[4] * b[2] + a[5] * b[3] + a[6] * b[0] + a[7] * b[1]));
    } else if k == 7 {
        lemma_term_scale_right(cb[7], b[7], a[0], c);
        lemma_term_scale_right(cb[6], b[6], a[1], c);
        vstd::arithmetic::mul::lemma_mul_is_distributive_sub(c, a[0] * b[7], a[1] * b[6]);
        lemma_term_scale_right(cb[5], b[5], a[2], c);
        vstd::arithmetic::mul::lemma_mul_is_distributive_add(c, a[0] * b[7] - a[1] * b[6], a[2] * b[5]);
        lemma_term_scale_right(cb[4], b[4], a[3], c);
        vstd::arithmetic::mul::lemma_mul_is_distributive_add(c, a[0] * b[7] - a[1] * b[6] + a[2] * b[5], a[3] * b[4]);
        lemma_term_scale_right(cb[3], b[3], a[4], c);
        vstd::arithmetic::mul::lemma_mul_is_distributive_sub(c, a[0] * b[7] - a[1] * b[6] + a[2] * b[5] + a[3] * b[4], a[4] * b[3]);
        lemma_term_scale_right(cb[2], b[2], a[5], c);
        vstd::arithmetic::mul::lemma_mul_is_distributive_add(c, a[0] * b[7] - a[1] * b[6] + a[2] * b[5] + a[3] * b[4] - a[4] * b[3], a[5] * b[2]);
        lemma_term_scale_right(cb[1], b[1], a[6], c);
        vstd::arithmetic::mul::lemma_mul_is_distributive_add(c, a[0] * b[7] - a[1] * b[6] + a[2] * b[5] + a[3] * b[4] - a[4] * b[3] + a[5] * b[2], a[6] * b[1]);
        lemma_term_scale_right(cb[0], b[0], a[7], c);
        vstd::arithmetic::mul::lemma_mul_is_distributive_add(c, a[0] * b[7] - a[1] * b[6] + a[2] * b[5] + a[3] * b[4] - a[4] * b[3] + a[5] * b[2] + a[6] * b[1], a[7] * b[0]);
        assert(a[0] * cb[7] - a[1] * cb[6] + a[2] * cb[5] + a[3] * cb[4] - a[4] * cb[3] + a[5] * cb[2] + a[6] * cb[1] + a[7] * cb[0] == c * (a[0] * b[7] - a[1] * b[6] + a[2] * b[5] + a[3] * b[4] - a[4] * b[3] + a[5] * b[2] + a[6] * b[1] + a[7] * b[0]));
    }
}

/// Componentwise wrapping sum of two elements.
pub open spec fn oct_add(a: Seq<i64>, b: Seq<i64>) -> Seq<i64> {
    Seq::new(8, |k: int| a[k].wrapping_add(b[k]))
}

/// Componentwise wrapping product of an element with the scalar `c`.
pub open spec fn oct_scale(c: i64, a: Seq<i64>) -> Seq<i64> {
    Seq::new(8, |k: int| c.wrapping_mul(a[k]))
}

proof fn lemma_same_mod(x: int, y: int)
    requires
        x % word_range() == y % word_range(),
    ensures
        x == y + word_range() * ((x - y) / word_range()),
{
    let r = word_range();
    vstd::arithmetic::div_mod::lemma_sub_mod_noop(x, y, r);
    vstd::arithmetic::div_mod::lemma_fundamental_div_mod(x - y, r);
}

proof fn lemma_crop_shift(u: int, w: int)
    ensures
        signed_crop(u + word_range() * w) == signed_crop(u),
{
    vstd::arithmetic::div_mod::lemma_mod_multiples_vanish(w, u, word_range());
}

/// The integer components of `x op y` differ from the exact `x + y` by multiples of 2^64.
proof fn lemma_add_wrap(a: Seq<i64>, a2: Seq<i64>) -> (t: Seq<int>)
    requires
        a.len() == 8,
        a2.len() == 8,
    ensures
        t.len() == 8,
        sum_up_to_wrap(ints(oct_add(a, a2)), ints(a), ints(a2), t),
{
    let s = ints(oct_add(a, a2));
    let t = Seq::new(8, |i: int| (s[i] - (a[i] + a2[i])) / word_range());
    assert forall|i: int| 0 <= i < 8 implies #[trigger] s[i] == ints(a)[i] + ints(a2)[i] + word_range()
        * t[i] by {
        lemma_crop_i64(a[i]);
        lemma_crop_i64(a2[i]);
        lemma_add_crop(a[i], a2[i], a[i] as int, a2[i] as int);
        lemma_crop_mod(a[i] + a2[i]);
        lemma_same_mod(s[i], a[i] + a2[i]);
    }
    t
}

/// The integer components of `c a` differ from the exact `c a[i]` by multiples of 2^64.
proof fn lemma_scale_wrap(c: i64, a: Seq<i64>) -> (t: Seq<int>)
    requires
        a.len() == 8,
    ensures
        t.len() == 8,
        sum_up_to_wrap(
            ints(oct_scale(c, a)),
            Seq::new(8, |i: int| c * ints(a)[i]),
            Seq::new(8, |i: int| 0int),
            t,
        ),
{
    let s = ints(oct_scale(c, a));
    let t = Seq::new(8, |i: int| (s[i] - c * a[i]) / word_range());
    assert forall|i: int| 0 <= i < 8 implies #[trigger] s[i] == Seq::new(8, |i: int| c * ints(a)[i])[i]
        + Seq::new(8, |i: int| 0int)[i] + word_range() * t[i] by {
        lemma_mul_crop(c, a[i]);
        lemma_crop_mod(c * a[i]);
        lemma_same_mod(s[i], c * a[i]);
    }
    t
}

proof fn lemma_zero_component(z: Seq<int>, b: Seq<int>, k: int)
    requires
        forall|i: int| 0 <= i < 8 ==> #[trigger] z[i] == 0,
        0 <= k < 8,
    ensures
        oct_component(z, b, k) == 0,
        oct_component(b, z, k) == 0,
{
    assert(z[0] == 0 && z[1] == 0 && z[2] == 0 && z[3] == 0 && z[4] == 0 && z[5] == 0 && z[6] == 0
        && z[7] == 0);
}

/// `c` times a word cut to 64 bits, cut again, is `c` times the exact value cut to 64 bits.
proof fn lemma_scale_crop(c: i64, u: int)
    ensures
        c.wrapping_mul(signed_crop(u)) == signed_crop(c * u),
{
    let r = word_range();
    lemma_crop_mod(u);
    lemma_same_mod(signed_crop(u) as int, u);
    let s = (signed_crop(u) as int - u) / r;
    assert(c * (signed_crop(u) as int) == c * u + r * (c * s)) by (nonlinear_arith)
        requires
            signed_crop(u) as int == u + r * s,
    ;
    lemma_mul_crop(c, signed_crop(u));
    lemma_crop_shift(c * u, c * s);
}

/// The product is bilinear modulo 2^64: it distributes over the wrapping sum on either
/// side, and a scalar factor on either side can be taken out.
pub proof fn lemma_oct_mul_bilinear(a: Seq<i64>, a2: Seq<i64>, b: Seq<i64>, b2: Seq<i64>, c: i64)
    requires
        a.len() == 8,
        a2.len() == 8,
        b.len() == 8,
        b2.len() == 8,
    ensures
        oct_mul(oct_add(a, a2), b) == oct_add(oct_mul(a, b), oct_mul(a2, b)),
        oct_mul(a, oct_add(b, b2)) == oct_add(oct_mul(a, b), oct_mul(a, b2)),
        oct_mul(oct_scale(c, a), b) == oct_scale(c, oct_mul(a, b)),
        oct_mul(a, oct_scale(c, b)) == oct_scale(c, oct_mul(a, b)),
{
    let r = word_range();
    let ta = lemma_add_wrap(a, a2);
    let tb = lemma_add_wrap(b, b2);
    let sa = lemma_scale_wrap(c, a);
    let sb = lemma_scale_wrap(c, b);
    let ca = Seq::new(8, |i: int| c * ints(a)[i]);
    let cb = Seq::new(8, |i: int| c * ints(b)[i]);
    let z = Seq::new(8, |i: int| 0int);
    assert forall|k: int| 0 <= k < 8 implies #[trigger] oct_mul(oct_add(a, a2), b)[k] == oct_add(
        oct_mul(a, b),
        oct_mul(a2, b),
    )[k] by {
        lemma_component_add_left(ints(oct_add(a, a2)), ints(a), ints(a2), ta, ints(b), k);
        let u1 = oct_component(ints(a), ints(b), k);
        let u2 = oct_component(ints(a2), ints(b), k);
        lemma_crop_shift(u1 + u2, oct_component(ta, ints(b), k));
        lemma_add_crop(signed_crop(u1), signed_crop(u2), u1, u2);
    }
    assert forall|k: int| 0 <= k < 8 implies #[trigger] oct_mul(a, oct_add(b, b2))[k] == oct_add(
        oct_mul(a, b),
        oct_mul(a, b2),
    )[k] by {
        lemma_component_add_right(ints(a), ints(oct_add(b, b2)), ints(b), ints(b2), tb, k);
        let u1 = oct_component(ints(a), ints(b), k);
        let u2 = oct_component(ints(a), ints(b2), k);
        lemma_crop_shift(u1 + u2, oct_component(ints(a), tb, k));
        lemma_add_crop(signed_crop(u1), signed_crop(u2), u1, u2);
    }
    assert forall|k: int| 0 <= k < 8 implies #[trigger] oct_mul(oct_scale(c, a), b)[k] == oct_scale(
        c,
        oct_mul(a, b),
    )[k] by {
        lemma_component_add_left(ints(oct_scale(c, a)), ca, z, sa, ints(b), k);
        lemma_zero_component(z, ints(b), k);
        lemma_component_scale_left(ints(a), ca, ints(b), c as int, k);
        let u = oct_component(ints(a), ints(b), k);
        lemma_crop_shift(c * u, oct_component(sa, ints(b), k));
        lemma_scale_crop(c, u);
    }
    assert forall|k: int| 0 <= k < 8 implies #[trigger] oct_mul(a, oct_scale(c, b))[k] == oct_scale(
        c,
        oct_mul(a, b),
    )[k] by {
        lemma_component_add_right(ints(a), ints(oct_scale(c, b)), cb, z, sb, k);
        lemma_zero_component(z, ints(a), k);
        lemma_component_scale_right(ints(a), ints(b), cb, c as int, k);
        let u = oct_component(ints(a), ints(b), k);
        lemma_crop_shift(c * u, oct_component(ints(a), sb, k));
        lemma_scale_crop(c, u);
    }
    assert(oct_mul(oct_add(a, a2), b) =~= oct_add(oct_mul(a, b), oct_mul(a2, b)));
    assert(oct_mul(a, oct_add(b, b2)) =~= oct_add(oct_mul(a, b), oct_mul(a, b2)));
    assert(oct_mul(oct_scale(c, a), b) =~= oct_scale(c, oct_mul(a, b)));
    assert(oct_mul(a, oct_scale(c, b)) =~= oct_scale(c, oct_mul(a, b)));
}

/// The element with `s` in component `k` and zeros elsewhere.
pub open spec fn oct_basis(s: i64, k: int) -> Seq<i64> {
    Seq::new(8, |j: int| if j == k { s } else { 0i64 })
}

proof fn lemma_basis_ints(s: i64, k: int)
    ensures
        ints(oct_basis(s, k)).len() == 8,
        forall|t: int| 0 <= t < 8 ==> #[trigger] ints(oct_basis(s, k))[t] == if t == k {
            s as int
        } else {
            0int
        },
{
}

proof fn lemma_unit_row_0()
    ensures
        oct_mul(oct_basis(1i64, 0), oct_basis(1i64, 0)) == oct_basis(1i64, 0),
        oct_mul(oct_basis(1i64, 0), oct_basis(1i64, 1)) == oct_basis(1i64, 1),
        oct_mul(oct_basis(1i64, 0), oct_basis(1i64, 2)) == oct_basis(1i64, 2),
        oct_mul(oct_basis(1i64, 0), oct_basis(1i64, 3)) == oct_basis(1i64, 3),
        oct_mul(oct_basis(1i64, 0), oct_basis(1i64, 4)) == oct_basis(1i64, 4),
        oct_mul(oct_basis(1i64, 0), oct_basis(1i64, 5)) == oct_basis(1i64, 5),
        oct_mul(oct_basis(1i64, 0), oct_basis(1i64, 6)) == oct_basis(1i64, 6),
        oct_mul(oct_basis(1i64, 0), oct_basis(1i64, 7)) == oct_basis(1i64, 7),
{
    lemma_crop_i64(0i64);
    lemma_crop_i64(1i64);
    lemma_crop_i64(-1i64);
    lemma_basis_ints(1i64, 0);
    lemma_basis_ints(1i64, 1);
    lemma_basis_ints(1i64, 2);
    lemma_basis_ints(1i64, 3);
    lemma_basis_ints(1i64, 4);
    lemma_basis_ints(1i64, 5);
    lemma_basis_ints(1i64, 6);
    lemma_basis_ints(1i64, 7);
    assert(oct_mul(oct_basis(1i64, 0), oct_basis(1i64, 0)) =~= oct_basis(1i64, 0));
    assert(oct_mul(oct_basis(1i64, 0), oct_basis(1i64, 1)) =~= oct_basis(1i64, 1));
    assert(oct_mul(oct_basis(1i64, 0), oct_basis(1i64, 2)) =~= oct_basis(1i64, 2));
    assert(oct_mul(oct_basis(1i64, 0), oct_basis(1i64, 3)) =~= oct_basis(1i64, 3));
    assert(oct_mul(oct_basis(1i64, 0), oct_basis(1i64, 4)) =~= oct_basis(1i64, 4));
    assert(oct_mul(oct_basis(1i64, 0), oct_basis(1i64, 5)) =~= oct_basis(1i64, 5));
    assert(oct_mul(oct_basis(1i64, 0), oct_basis(1i64, 6)) =~= oct_basis(1i64, 6));
    assert(oct_mul(oct_basis(1i64, 0), oct_basis(1i64, 7)) =~= oct_basis(1i64, 7));
}

proof fn lemma_unit_row_1()
    ensures
        oct_mul(oct_basis(1i64, 1), oct_basis(1i64, 0)) == oct_basis(1i64, 1),
        oct_mul(oct_basis(1i64, 1), oct_basis(1i64, 1)) == oct_basis(-1i64, 0),
        oct_mul(oct_basis(1i64, 1), oct_basis(1i64, 2)) == oct_basis(1i64, 3),
        oct_mul(oct_basis(1i64, 1), oct_basis(1i64, 3)) == oct_basis(-1i64, 2),
        oct_mul(oct_basis(1i64, 1), oct_basis(1i64, 4)) == oct_basis(1i64, 5),
        oct_mul(oct_basis(1i64, 1), oct_basis(1i64, 5)) == oct_basis(-1i64, 4),
        oct_mul(oct_basis(1i64, 1), oct_basis(1i64, 6)) == oct_basis(-1i64, 7),
        oct_mul(oct_basis(1i64, 1), oct_basis(1i64, 7)) == oct_basis(1i64, 6),
{
    lemma_crop_i64(0i64);
    lemma_crop_i64(1i64);
    lemma_crop_i64(-1i64);
    lemma_basis_ints(1i64, 1);
    lemma_basis_ints(1i64, 0);
    lemma_basis_ints(1i64, 2);
    lemma_basis_ints(1i64, 3);
    lemma_basis_ints(1i64, 4);
    lemma_basis_ints(1i64, 5);
    lemma_basis_ints(1i64, 6);
    lemma_basis_ints(1i64, 7);
    assert(oct_mul(oct_basis(1i64, 1), oct_basis(1i64, 0)) =~= oct_basis(1i64, 1));
    assert(oct_mul(oct_basis(1i64, 1), oct_basis(1i64, 1)) =~= oct_basis(-1i64, 0));
    assert(oct_mul(oct_basis(1i64, 1), oct_basis(1i64, 2)) =~= oct_basis(1i64, 3));
    assert(oct_mul(oct_basis(1i64, 1), oct_basis(1i64, 3)) =~= oct_basis(-1i64, 2));
    assert(oct_mul(oct_basis(1i64, 1), oct_basis(1i64, 4)) =~= oct_basis(1i64, 5));
    assert(oct_mul(oct_basis(1i64, 1), oct_basis(1i64, 5)) =~= oct_basis(-1i64, 4));
    assert(oct_mul(oct_basis(1i64, 1), oct_basis(1i64, 6)) =~= oct_basis(-1i64, 7));
    assert(oct_mul(oct_basis(1i64, 1), oct_basis(1i64, 7)) =~= oct_basis(1i64, 6));
}

proof fn lemma_unit_row_2()
    ensures
        oct_mul(oct_basis(1i64, 2), oct_basis(1i64, 0)) == oct_basis(1i64, 2),
        oct_mul(oct_basis(1i64, 2), oct_basis(1i64, 1)) == oct_basis(-1i64, 3),
        oct_mul(oct_basis(1i64, 2), oct_basis(1i64, 2)) == oct_basis(-1i64, 0),
        oct_mul(oct_basis(1i64, 2), oct_basis(1i64, 3)) == oct_basis(1i64, 1),
        oct_mul(oct_basis(1i64, 2), oct_basis(1i64, 4)) == oct_basis(1i64, 6),
        oct_mul(oct_basis(1i64, 2), oct_basis(1i64, 5)) == oct_basis(1i64, 7),
        oct_mul(oct_basis(1i64, 2), oct_basis(1i64, 6)) == oct_basis(-1i64, 4),
        oct_mul(oct_basis(1i64, 2), oct_basis(1i64, 7)) == oct_basis(-1i64, 5),
{
    lemma_crop_i64(0i64);
    lemma_crop_i64(1i64);
    lemma_crop_i64(-1i64);
    lemma_basis_ints(1i64, 2);
    lemma_basis_ints(1i64, 0);
    lemma_basis_ints(1i64, 1);
    lemma_basis_ints(1i64, 3);
    lemma_basis_ints(1i64, 4);
    lemma_basis_ints(1i64, 5);
    lemma_basis_ints(1i64, 6);
    lemma_basis_ints(1i64, 7);
    assert(oct_mul(oct_basis(1i64, 2), oct_basis(1i64, 0)) =~= oct_basis(1i64, 2));
    assert(oct_mul(oct_basis(1i64, 2), oct_basis(1i64, 1)) =~= oct_basis(-1i64, 3));
    assert(oct_mul(oct_basis(1i64, 2), oct_basis(1i64, 2)) =~= oct_basis(-1i64, 0));
    assert(oct_mul(oct_basis(1i64, 2), oct_basis(1i64, 3)) =~= oct_basis(1i64, 1));
    assert(oct_mul(oct_basis(1i64, 2), oct_basis(1i64, 4)) =~= oct_basis(1i64, 6));
    assert(oct_mul(oct_basis(1i64, 2), oct_basis(1i64, 5)) =~= oct_basis(1i64, 7));
    assert(oct_mul(oct_basis(1i64, 2), oct_basis(1i64, 6)) =~= oct_basis(-1i64, 4));
    assert(oct_mul(oct_basis(1i64, 2), oct_basis(1i64, 7)) =~= oct_basis(-1i64, 5));
}

proof fn lemma_unit_row_3()
    ensures
        oct_mul(oct_basis(1i64, 3), oct_basis(1i64, 0)) == oct_basis(1i64, 3),
        oct_mul(oct_basis(1i64, 3), oct_basis(1i64, 1)) == oct_basis(1i64, 2),
        oct_mul(oct_basis(1i64, 3), oct_basis(1i64, 2)) == oct_basis(-1i64, 1),
        oct_mul(oct_basis(1i64, 3), oct_basis(1i64, 3)) == oct_basis(-1i64, 0),
        oct_mul(oct_basis(1i64, 3), oct_basis(1i64, 4)) == oct_basis(1i64, 7),
        oct_mul(oct_basis(1i64, 3), oct_basis(1i64, 5)) == oct_basis(-1i64, 6),
        oct_mul(oct_basis(1i64, 3), oct_basis(1i64, 6)) == oct_basis(1i64, 5),
        oct_mul(oct_basis(1i64, 3), oct_basis(1i64, 7)) == oct_basis(-1i64, 4),
{
    lemma_crop_i64(0i64);
    lemma_crop_i64(1i64);
    lemma_crop_i64(-1i64);
    lemma_basis_ints(1i64, 3);
    lemma_basis_ints(1i64, 0);
    lemma_basis_ints(1i64, 1);
    lemma_basis_ints(1i64, 2);
    lemma_basis_ints(1i64, 4);
    lemma_basis_ints(1i64, 5);
    lemma_basis_ints(1i64, 6);
    lemma_basis_ints(1i64, 7);
    assert(oct_mul(oct_basis(1i64, 3), oct_basis(1i64, 0)) =~= oct_basis(1i64, 3));
    assert(oct_mul(oct_basis(1i64, 3), oct_basis(1i64, 1)) =~= oct_basis(1i64, 2));
    assert(oct_mul(oct_basis(1i64, 3), oct_basis(1i64, 2)) =~= oct_basis(-1i64, 1));
    assert(oct_mul(oct_basis(1i64, 3), oct_basis(1i64, 3)) =~= oct_basis(-1i64, 0));
    assert(oct_mul(oct_basis(1i64, 3), oct_basis(1i64, 4)) =~= oct_basis(1i64, 7));
    assert(oct_mul(oct_basis(1i64, 3), oct_basis(1i64, 5)) =~= oct_basis(-1i64, 6));
    assert(oct_mul(oct_basis(1i64, 3), oct_basis(1i64, 6)) =~= oct_basis(1i64, 5));
    assert(oct_mul(oct_basis(1i64, 3), oct_basis(1i64, 7)) =~= oct_basis(-1i64, 4));
}

proof fn lemma_unit_row_4()
    ensures
        oct_mul(oct_basis(1i64, 4), oct_basis(1i64, 0)) == oct_basis(1i64, 4),
        oct_mul(oct_basis(1i64, 4), oct_basis(1i64, 1)) == oct_basis(-1i64, 5),
        oct_mul(oct_basis(1i64, 4), oct_basis(1i64, 2)) == oct_basis(-1i64, 6),
        oct_mul(oct_basis(1i64, 4), oct_basis(1i64, 3)) == oct_basis(-1i64, 7),
        oct_mul(oct_basis(1i64, 4), oct_basis(1i64, 4)) == oct_basis(-1i64, 0),
        oct_mul(oct_basis(1i64, 4), oct_basis(1i64, 5)) == oct_basis(1i64, 1),
        oct_mul(oct_basis(1i64, 4), oct_basis(1i64, 6)) == oct_basis(1i64, 2),
        oct_mul(oct_basis(1i64, 4), oct_basis(1i64, 7)) == oct_basis(1i64, 3),
{
    lemma_crop_i64(0i64);
    lemma_crop_i64(1i64);
    lemma_crop_i64(-1i64);
    lemma_basis_ints(1i64, 4);
    lemma_basis_ints(1i64, 0);
    lemma_basis_ints(1i64, 1);
    lemma_basis_ints(1i64, 2);
    lemma_basis_ints(1i64, 3);
    lemma_basis_ints(1i64, 5);
    lemma_basis_ints(1i64, 6);
    lemma_basis_ints(1i64, 7);
    assert(oct_mul(oct_basis(1i64, 4), oct_basis(1i64, 0)) =~= oct_basis(1i64, 4));
    assert(oct_mul(oct_basis(1i64, 4), oct_basis(1i64, 1)) =~= oct_basis(-1i64, 5));
    assert(oct_mul(oct_basis(1i64, 4), oct_basis(1i64, 2)) =~= oct_basis(-1i64, 6));
    assert(oct_mul(oct_basis(1i64, 4), oct_basis(1i64, 3)) =~= oct_basis(-1i64, 7));
    assert(oct_mul(oct_basis(1i64, 4), oct_basis(1i64, 4)) =~= oct_basis(-1i64, 0));
    assert(oct_mul(oct_basis(1i64, 4), oct_basis(1i64, 5)) =~= oct_basis(1i64, 1));
    assert(oct_mul(oct_basis(1i64, 4), oct_basis(1i64, 6)) =~= oct_basis(1i64, 2));
    assert(oct_mul(oct_basis(1i64, 4), oct_basis(1i64, 7)) =~= oct_basis(1i64, 3));
}

proof fn lemma_unit_row_5()
    ensures
        oct_mul(oct_basis(1i64, 5), oct_basis(1i64, 0)) == oct_basis(1i64, 5),
        oct_mul(oct_basis(1i64, 5), oct_basis(1i64, 1)) == oct_basis(1i64, 4),
        oct_mul(oct_basis(1i64, 5), oct_basis(1i64, 2)) == oct_basis(1i64, 7),
        oct_mul(oct_basis(1i64, 5), oct_basis(1i64, 3)) == oct_basis(1i64, 6),
        oct_mul(oct_basis(1i64, 5), oct_basis(1i64, 4)) == oct_basis(-1i64, 1),
        oct_mul(oct_basis(1i64, 5), oct_basis(1i64, 5)) == oct_basis(-1i64, 0),
        oct_mul(oct_basis(1i64, 5), oct_basis(1i64, 6)) == oct_basis(1i64, 3),
        oct_mul(oct_basis(1i64, 5), oct_basis(1i64, 7)) == oct_basis(-1i64, 2),
{
    lemma_crop_i64(0i64);
    lemma_crop_i64(1i64);
    lemma_crop_i64(-1i64);
    lemma_basis_ints(1i64, 5);
    lemma_basis_ints(1i64, 0);
    lemma_basis_ints(1i64, 1);
    lemma_basis_ints(1i64, 2);
    lemma_basis_ints(1i64, 3);
    lemma_basis_ints(1i64, 4);
    lemma_basis_ints(1i64, 6);
    lemma_basis_ints(1i64, 7);
    assert(oct_mul(oct_basis(1i64, 5), oct_basis(1i64, 0)) =~= oct_basis(1i64, 5));
    assert(oct_mul(oct_basis(1i64, 5), oct_basis(1i64, 1)) =~= oct_basis(1i64, 4));
    assert(oct_mul(oct_basis(1i64, 5), oct_basis(1i64, 2)) =~= oct_basis(1i64, 7));
    assert(oct_mul(oct_basis(1i64, 5), oct_basis(1i64, 3)) =~= oct_basis(1i64, 6));
    assert(oct_mul(oct_basis(1i64, 5), oct_basis(1i64, 4)) =~= oct_basis(-1i64, 1));
    assert(oct_mul(oct_basis(1i64, 5), oct_basis(1i64, 5)) =~= oct_basis(-1i64, 0));
    assert(oct_mul(oct_basis(1i64, 5), oct_basis(1i64, 6)) =~= oct_basis(1i64, 3));
    assert(oct_mul(oct_basis(1i64, 5), oct_basis(1i64, 7)) =~= oct_basis(-1i64, 2));
}

proof fn lemma_unit_row_6()
    ensures
        oct_mul(oct_basis(1i64, 6), oct_basis(1i64, 0)) == oct_basis(1i64, 6),
        oct_mul(oct_basis(1i64, 6), oct_basis(1i64, 1)) == oct_basis(1i64, 7),
        oct_mul(oct_basis(1i64, 6), oct_basis(1i64, 2)) == oct_basis(1i64, 4),
        oct_mul(oct_basis(1i64, 6), oct_basis(1i64, 3)) == oct_basis(1i64, 5),
        oct_mul(oct_basis(1i64, 6), oct_basis(1i64, 4)) == oct_basis(1i64, 2),
        oct_mul(oct_basis(1i64, 6), oct_basis(1i64, 5)) == oct_basis(-1i64, 3),
        oct_mul(oct_basis(1i64, 6), oct_basis(1i64, 6)) == oct_basis(-1i64, 0),
        oct_mul(oct_basis(1i64, 6), oct_basis(1i64, 7)) == oct_basis(-1i64, 1),
{
    lemma_crop_i64(0i64);
    lemma_crop_i64(1i64);
    lemma_crop_i64(-1i64);
    lemma_basis_ints(1i64, 6);
    lemma_basis_ints(1i64, 0);
    lemma_basis_ints(1i64, 1);
    lemma_basis_ints(1i64, 2);
    lemma_basis_ints(1i64, 3);
    lemma_basis_ints(1i64, 4);
    lemma_basis_ints(1i64, 5);
    lemma_basis_ints(1i64, 7);
    assert(oct_mul(oct_basis(1i64, 6), oct_basis(1i64, 0)) =~= oct_basis(1i64, 6));
    assert(oct_mul(oct_basis(1i64, 6), oct_basis(1i64, 1)) =~= oct_basis(1i64, 7));
    assert(oct_mul(oct_basis(1i64, 6), oct_basis(1i64, 2)) =~= oct_basis(1i64, 4));
    assert(oct_mul(oct_basis(1i64, 6), oct_basis(1i64, 3)) =~= oct_basis(1i64, 5));
    assert(oct_mul(oct_basis(1i64, 6), oct_basis(1i64, 4)) =~= oct_basis(1i64, 2));
    assert(oct_mul(oct_basis(1i64, 6), oct_basis(1i64, 5)) =~= oct_basis(-1i64, 3));
    assert(oct_mul(oct_basis(1i64, 6), oct_basis(1i64, 6)) =~= oct_basis(-1i64, 0));
    assert(oct_mul(oct_basis(1i64, 6), oct_basis(1i64, 7)) =~= oct_basis(-1i64, 1));
}

proof fn lemma_unit_row_7()
    ensures
        oct_mul(oct_basis(1i64, 7), oct_basis(1i64, 0)) == oct_basis(1i64, 7),
        oct_mul(oct_basis(1i64, 7), oct_basis(1i64, 1)) == oct_basis(1i64, 6),
        oct_mul(oct_basis(1i64, 7), oct_basis(1i64, 2)) == oct_basis(1i64, 5),
        oct_mul(oct_basis(1i64, 7), oct_basis(1i64, 3)) == oct_basis(1i64, 4),
        oct_mul(oct_basis(1i64, 7), oct_basis(1i64, 4)) == oct_basis(1i64, 3),
        oct_mul(oct_basis(1i64, 7), oct_basis(1i64, 5)) == oct_basis(-1i64, 2),
        oct_mul(oct_basis(1i64, 7), oct_basis(1i64, 6)) == oct_basis(1i64, 1),
        oct_mul(oct_basis(1i64, 7), oct_basis(1i64, 7)) == oct_basis(-1i64, 0),
{
    lemma_crop_i64(0i64);
    lemma_crop_i64(1i64);
    lemma_crop_i64(-1i64);
    lemma_basis_ints(1i64, 7);
    lemma_basis_ints(1i64, 0);
    lemma_basis_ints(1i64, 1);
    lemma_basis_ints(1i64, 2);
    lemma_basis_ints(1i64, 3);
    lemma_basis_ints(1i64, 4);
    lemma_basis_ints(1i64, 5);
    lemma_basis_ints(1i64, 6);
    assert(oct_mul(oct_basis(1i64, 7), oct_basis(1i64, 0)) =~= oct_basis(1i64, 7));
    assert(oct_mul(oct_basis(1i64, 7), oct_basis(1i64, 1)) =~= oct_basis(1i64, 6));
    assert(oct_mul(oct_basis(1i64, 7), oct_basis(1i64, 2)) =~= oct_basis(1i64, 5));
    assert(oct_mul(oct_basis(1i64, 7), oct_basis(1i64, 3)) =~= oct_basis(1i64, 4));
    assert(oct_mul(oct_basis(1i64, 7), oct_basis(1i64, 4)) =~= oct_basis(1i64, 3));
    assert(oct_mul(oct_basis(1i64, 7), oct_basis(1i64, 5)) =~= oct_basis(-1i64, 2));
    assert(oct_mul(oct_basis(1i64, 7), oct_basis(1i64, 6)) =~= oct_basis(1i64, 1));
    assert(oct_mul(oct_basis(1i64, 7), oct_basis(1i64, 7)) =~= oct_basis(-1i64, 0));
}

/// The products of the eight basis elements (the real unit `e0` and `e1` .. `e7`): each
/// product `ei ej` is plus or minus one basis element `ek`. Clause `8 i + j` gives `ei ej`.
/// With bilinearity this fixes the whole product.
pub proof fn lemma_oct_unit_table()
    ensures
        oct_mul(oct_basis(1i64, 0), oct_basis(1i64, 0)) == oct_basis(1i64, 0),
        oct_mul(oct_basis(1i64, 0), oct_basis(1i64, 1)) == oct_basis(1i64, 1),
        oct_mul(oct_basis(1i64, 0), oct_basis(1i64, 2)) == oct_basis(1i64, 2),
        oct_mul(oct_basis(1i64, 0), oct_basis(1i64, 3)) == oct_basis(1i64, 3),
        oct_mul(oct_basis(1i64, 0), oct_basis(1i64, 4)) == oct_basis(1i64, 4),
        oct_mul(oct_basis(1i64, 0), oct_basis(1i64, 5)) == oct_basis(1i64, 5),
        oct_mul(oct_basis(1i64, 0), oct_basis(1i64, 6)) == oct_basis(1i64, 6),
        oct_mul(oct_basis(1i64, 0), oct_basis(1i64, 7)) == oct_basis(1i64, 7),
        oct_mul(oct_basis(1i64, 1), oct_basis(1i64, 0)) == oct_basis(1i64, 1),
        oct_mul(oct_basis(1i64, 1), oct_basis(1i64, 1)) == oct_basis(-1i64, 0),
        oct_mul(oct_basis(1i64, 1), oct_basis(1i64, 2)) == oct_basis(1i64, 3),
        oct_mul(oct_basis(1i64, 1), oct_basis(1i64, 3)) == oct_basis(-1i64, 2),
        oct_mul(oct_basis(1i64, 1), oct_basis(1i64, 4)) == oct_basis(1i64, 5),
        oct_mul(oct_basis(1i64, 1), oct_basis(1i64, 5)) == oct_basis(-1i64, 4),
        oct_mul(oct_basis(1i64, 1), oct_basis(1i64, 6)) == oct_basis(-1i64, 7),
        oct_mul(oct_basis(1i64, 1), oct_basis(1i64, 7)) == oct_basis(1i64, 6),
        oct_mul(oct_basis(1i64, 2), oct_basis(1i64, 0)) == oct_basis(1i64, 2),
        oct_mul(oct_basis(1i64, 2), oct_basis(1i64, 1)) == oct_basis(-1i64, 3),
        oct_mul(oct_basis(1i64, 2), oct_basis(1i64, 2)) == oct_basis(-1i64, 0),
        oct_mul(oct_basis(1i64, 2), oct_basis(1i64, 3)) == oct_basis(1i64, 1),
        oct_mul(oct_basis(1i64, 2), oct_basis(1i64, 4)) == oct_basis(1i64, 6),
        oct_mul(oct_basis(1i64, 2), oct_basis(1i64, 5)) == oct_basis(1i64, 7),
        oct_mul(oct_basis(1i64, 2), oct_basis(1i64, 6)) == oct_basis(-1i64, 4),
        oct_mul(oct_basis(1i64, 2), oct_basis(1i64, 7)) == oct_basis(-1i64, 5),
        oct_mul(oct_basis(1i64, 3), oct_basis(1i64, 0)) == oct_basis(1i64, 3),
        oct_mul(oct_basis(1i64, 3), oct_basis(1i64, 1)) == oct_basis(1i64, 2),
        oct_mul(oct_basis(1i64, 3), oct_basis(1i64, 2)) == oct_basis(-1i64, 1),
        oct_mul(oct_basis(1i64, 3), oct_basis(1i64, 3)) == oct_basis(-1i64, 0),
        oct_mul(oct_basis(1i64, 3), oct_basis(1i64, 4)) == oct_basis(1i64, 7),
        oct_mul(oct_basis(1i64, 3), oct_basis(1i64, 5)) == oct_basis(-1i64, 6),
        oct_mul(oct_basis(1i64, 3), oct_basis(1i64, 6)) == oct_basis(1i64, 5),
        oct_mul(oct_basis(1i64, 3), oct_basis(1i64, 7)) == oct_basis(-1i64, 4),
        oct_mul(oct_basis(1i64, 4), oct_basis(1i64, 0)) == oct_basis(1i64, 4),
        oct_mul(oct_basis(1i64, 4), oct_basis(1i64, 1)) == oct_basis(-1i64, 5),
        oct_mul(oct_basis(1i64, 4), oct_basis(1i64, 2)) == oct_basis(-1i64, 6),
        oct_mul(oct_basis(1i64, 4), oct_basis(1i64, 3)) == oct_basis(-1i64, 7),
        oct_mul(oct_basis(1i64, 4), oct_basis(1i64, 4)) == oct_basis(-1i64, 0),
        oct_mul(oct_basis(1i64, 4), oct_basis(1i64, 5)) == oct_basis(1i64, 1),
        oct_mul(oct_basis(1i64, 4), oct_basis(1i64, 6)) == oct_basis(1i64, 2),
        oct_mul(oct_basis(1i64, 4), oct_basis(1i64, 7)) == oct_basis(1i64, 3),
        oct_mul(oct_basis(1i64, 5), oct_basis(1i64, 0)) == oct_basis(1i64, 5),
        oct_mul(oct_basis(1i64, 5), oct_basis(1i64, 1)) == oct_basis(1i64, 4),
        oct_mul(oct_basis(1i64, 5), oct_basis(1i64, 2)) == oct_basis(1i64, 7),
        oct_mul(oct_basis(1i64, 5), oct_basis(1i64, 3)) == oct_basis(1i64, 6),
        oct_mul(oct_basis(1i64, 5), oct_basis(1i64, 4)) == oct_basis(-1i64, 1),
        oct_mul(oct_basis(1i64, 5), oct_basis(1i64, 5)) == oct_basis(-1i64, 0),
        oct_mul(oct_basis(1i64, 5), oct_basis(1i64, 6)) == oct_basis(1i64, 3),
        oct_mul(oct_basis(1i64, 5), oct_basis(1i64, 7)) == oct_basis(-1i64, 2),
        oct_mul(oct_basis(1i64, 6), oct_basis(1i64, 0)) == oct_basis(1i64, 6),
        oct_mul(oct_basis(1i64, 6), oct_basis(1i64, 1)) == oct_basis(1i64, 7),
        oct_mul(oct_basis(1i64, 6), oct_basis(1i64, 2)) == oct_basis(1i64, 4),
        oct_mul(oct_basis(1i64, 6), oct_basis(1i64, 3)) == oct_basis(1i64, 5),
        oct_mul(oct_basis(1i64, 6), oct_basis(1i64, 4)) == oct_basis(1i64, 2),
        oct_mul(oct_basis(1i64, 6), oct_basis(1i64, 5)) == oct_basis(-1i64, 3),
        oct_mul(oct_basis(1i64, 6), oct_basis(1i64, 6)) == oct_basis(-1i64, 0),
        oct_mul(oct_basis(1i64, 6), oct_basis(1i64, 7)) == oct_basis(-1i64, 1),
        oct_mul(oct_basis(1i64, 7), oct_basis(1i64, 0)) == oct_basis(1i64, 7),
        oct_mul(oct_basis(1i64, 7), oct_basis(1i64, 1)) == oct_basis(1i64, 6),
        oct_mul(oct_basis(1i64, 7), oct_basis(1i64, 2)) == oct_basis(1i64, 5),
        oct_mul(oct_basis(1i64, 7), oct_basis(1i64, 3)) == oct_basis(1i64, 4),
        oct_mul(oct_basis(1i64, 7), oct_basis(1i64, 4)) == oct_basis(1i64, 3),
        oct_mul(oct_basis(1i64, 7), oct_basis(1i64, 5)) == oct_basis(-1i64, 2),
        oct_mul(oct_basis(1i64, 7), oct_basis(1i64, 6)) == oct_basis(1i64, 1),
        oct_mul(oct_basis(1i64, 7), oct_basis(1i64, 7)) == oct_basis(-1i64, 0),
{
    lemma_unit_row_0();
    lemma_unit_row_1();
    lemma_unit_row_2();
    lemma_unit_row_3();
    lemma_unit_row_4();
    lemma_unit_row_5();
    lemma_unit_row_6();
    lemma_unit_row_7();
}

} // verus!
