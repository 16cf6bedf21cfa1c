//! The "anti-FPGA" byte transform of HeavyHash: a chain of multiplicative and
//! rotational mixes applied to each byte of the product independently.
use vstd::prelude::*;
use crate::bits::{count_ones32, ones32, rotl32, rotl32_spec, rotr32, rotr32_spec};
use crate::matrix::Matrix;

verus! {

pub open spec fn chaotic_random_spec(x: u32) -> u32 {
    x.wrapping_mul(362605u32) ^ 0xA5A5A5A5u32
}

/// `n` rounds of `acc = acc * 16625 ^ round` (wrapping) starting from `seed`.
pub open spec fn mix_rounds(seed: u32, n: nat) -> u32
    decreases n,
{
    if n == 0 {
        seed
    } else {
        mix_rounds(seed, (n - 1) as nat).wrapping_mul(16625u32) ^ ((n - 1) as u32)
    }
}

pub open spec fn memory_intensive_mix_spec(seed: u32) -> u32 {
    mix_rounds(seed, 32)
}

/// The state `(x, a, b)` of the modulated Fibonacci walk.
pub struct FibState {
    pub x: u32,
    pub a: u32,
    pub b: u32,
}

pub open spec fn fib_step(s: FibState) -> FibState {
    let b = s.b.wrapping_add(s.a ^ rotl32_spec(s.x, s.b % 17));
    let a = s.b;
    let x = rotr32_spec(s.x, a % 13) ^ b;
    FibState { x: x, a: a, b: b }
}

pub open spec fn fib_walk(s: FibState, n: nat) -> FibState
    decreases n,
{
    if n == 0 {
        s
    } else {
        fib_step(fib_walk(s, (n - 1) as nat))
    }
}

/// The walk starts at `(x, 1, x | 1)` and takes `min(depth, 8)` steps.
pub open spec fn recursive_fibonacci_modulated_spec(x: u32, depth: u8) -> u32 {
    let steps = if depth < 8 {
        depth
    } else {
        8u8
    };
    fib_walk(FibState { x: x, a: 1, b: x | 1 }, steps as nat).x
}

pub open spec fn anti_fpga_hash_spec(input: u32) -> u32 {
    let noise = memory_intensive_mix_spec(input);
    let depth = ((noise & 0x0Fu32) + 10) as u8;
    let x = input ^ (ones32(input, 32) as u32);
    let x = recursive_fibonacci_modulated_spec(x ^ noise, depth);
    x ^ memory_intensive_mix_spec(rotl32_spec(x, 9))
}

/// Byte `i` of the transformed product: the byte mixed with its position, reduced to
/// a byte, scrambled, hashed, and cut back to its low byte.
pub open spec fn after_comp_byte(pre: Seq<u8>, i: int) -> u8 {
    let input = (pre[i] as u32) ^ ((i as u32) << 8u32);
    let normalized = input % 256;
    (anti_fpga_hash_spec(chaotic_random_spec(normalized)) & 0xFFu32) as u8
}

impl Matrix {
    pub fn chaotic_random(x: u32) -> (r: u32)
        ensures
            r == chaotic_random_spec(x),
    {
        x.wrapping_mul(362605) ^ 0xA5A5A5A5
    }

    pub fn memory_intensive_mix(seed: u32) -> (r: u32)
        ensures
            r == memory_intensive_mix_spec(seed),
    {
        let mut acc = seed;
        let mut i: u32 = 0;
        while i < 32
            invariant
                i <= 32,
                acc == mix_rounds(seed, i as nat),
            decreases 32 - i,
        {
            acc = acc.wrapping_mul(16625) ^ i;
            i = i + 1;
        }
        acc
    }

    pub fn recursive_fibonacci_modulated(x: u32, depth: u8) -> (r: u32)
        ensures
            r == recursive_fibonacci_modulated_spec(x, depth),
    {
        let ghost x0 = x;
        let mut x = x;
        let mut a: u32 = 1;
        let mut b: u32 = x | 1;
        let actual_depth: u8 = if depth < 8 {
            depth
        } else {
            8
        };
        let mut n: u8 = 0;
        while n < actual_depth
            invariant
                n <= actual_depth,
                actual_depth == if depth < 8 {
                    depth
                } else {
                    8u8
                },
                fib_walk(FibState { x: x0, a: 1, b: x0 | 1 }, n as nat) == (FibState {
                    x: x,
                    a: a,
                    b: b,
                }),
            decreases actual_depth - n,
        {
            let temp = b;
            b = b.wrapping_add(a ^ rotl32(x, b % 17));
            a = temp;
            x = rotr32(x, a % 13) ^ b;
            n = n + 1;
        }
        x
    }

    pub fn anti_fpga_hash(input: u32) -> (r: u32)
        ensures
            r == anti_fpga_hash_spec(input),
    {
        let mut x = input;
        let noise = Self::memory_intensive_mix(x);
        assert((noise & 0x0Fu32) + 10 <= 25) by (bit_vector);
        let depth = ((noise & 0x0F) + 10) as u8;
        let prime_factor_sum = count_ones32(x);
        x ^= prime_factor_sum;
        x = Self::recursive_fibonacci_modulated(x ^ noise, depth);
        x ^= Self::memory_intensive_mix(rotl32(x, 9));
        x
    }

    pub fn compute_after_comp_product(pre_comp_product: [u8; 32]) -> (out: [u8; 32])
        ensures
            forall|i: int| 0 <= i < 32 ==> #[trigger] out[i] == after_comp_byte(pre_comp_product@, i),
    {
        let mut after_comp_product = [0u8; 32];
        let mut i: usize = 0;
        while i < 32
            invariant
                i <= 32,
                forall|k: int|
                    0 <= k < i ==> #[trigger] after_comp_product[k] == after_comp_byte(
                        pre_comp_product@,
                        k,
                    ),
            decreases 32 - i,
        {
            let input = pre_comp_product[i] as u32 ^ ((i as u32) << 8);
            let normalized_input = input % 256;
            let modified_input = Self::chaotic_random(normalized_input);
            let hashed = Self::anti_fpga_hash(modified_input);
            after_comp_product[i] = (hashed & 0xFF) as u8;
            i = i + 1;
        }
        after_comp_product
    }
}

/// Each byte of the transformed product depends on the matching input byte alone: the
/// position that is mixed in is discarded by the reduction to a byte.
pub proof fn lemma_after_comp_bytewise(pre: Seq<u8>, other: Seq<u8>, i: int, j: int)
    requires
        0 <= i < 32,
        0 <= j < 32,
        pre.len() == 32,
        other.len() == 32,
        pre[i] == other[j],
    ensures
        after_comp_byte(pre, i) == after_comp_byte(other, j),
{
    let b = pre[i];
    let iu = i as u32;
    let ju = j as u32;
    assert(((b as u32) ^ (iu << 8u32)) % 256 == b as u32) by (bit_vector);
    assert(((b as u32) ^ (ju << 8u32)) % 256 == b as u32) by (bit_vector);
}

/// Multiplying by the odd constant 16625 modulo 2^32 loses nothing: 683061265 is its
/// inverse.
proof fn lemma_mul_16625_injective(a: u32, b: u32)
    requires
        a.wrapping_mul(16625u32) == b.wrapping_mul(16625u32),
    ensures
        a == b,
{
    let m: int = 0x1_0000_0000;
    let inv: int = 683061265;
    let x = a as int * 16625;
    let y = b as int * 16625;
    assert(x % m == y % m);
    vstd::arithmetic::div_mod::lemma_mul_mod_noop_left(x, inv, m);
    vstd::arithmetic::div_mod::lemma_mul_mod_noop_left(y, inv, m);
    assert(x * inv == a as int + (a as int * 2644) * m) by (nonlinear_arith)
        requires
            x == a as int * 16625,
            inv == 683061265,
            m == 0x1_0000_0000,
    ;
    assert(y * inv == b as int + (b as int * 2644) * m) by (nonlinear_arith)
        requires
            y == b as int * 16625,
            inv == 683061265,
            m == 0x1_0000_0000,
    ;
    vstd::arithmetic::div_mod::lemma_mod_multiples_vanish(a as int * 2644, a as int, m);
    vstd::arithmetic::div_mod::lemma_mod_multiples_vanish(b as int * 2644, b as int, m);
    vstd::arithmetic::div_mod::lemma_small_mod(a as nat, m as nat);
    vstd::arithmetic::div_mod::lemma_small_mod(b as nat, m as nat);
}

proof fn lemma_mix_rounds_injective(x: u32, y: u32, n: nat)
    requires
        mix_rounds(x, n) == mix_rounds(y, n),
    ensures
        x == y,
    decreases n,
{
    if n > 0 {
        let k = (n - 1) as u32;
        let u = mix_rounds(x, (n - 1) as nat).wrapping_mul(16625u32);
        let v = mix_rounds(y, (n - 1) as nat).wrapping_mul(16625u32);
        assert(u ^ k == v ^ k);
        assert(u == v) by (bit_vector)
            requires
                u ^ k == v ^ k,
        ;
        lemma_mul_16625_injective(mix_rounds(x, (n - 1) as nat), mix_rounds(y, (n - 1) as nat));
        lemma_mix_rounds_injective(x, y, (n - 1) as nat);
    }
}

/// `memory_intensive_mix` never maps two seeds to one value: each of its rounds, a
/// wrapping multiplication by an odd constant followed by an XOR, can be undone.
pub proof fn lemma_memory_intensive_mix_injective(x: u32, y: u32)
    requires
        memory_intensive_mix_spec(x) == memory_intensive_mix_spec(y),
    ensures
        x == y,
{
    lemma_mix_rounds_injective(x, y, 32);
}

} // verus!
