//! Deriving the HeavyHash matrix of a block from its pre-PoW hash.
use vstd::prelude::*;
use crate::matrix::Matrix;
use crate::xoshiro::{
    XoShiRo256PlusPlus, XoshiroState, xoshiro_advance, xoshiro_nth, xoshiro_output,
    xoshiro_step, seed_state,
};

verus! {

/// The 4-bit group number `s` (counted from the least significant end) of `v`.
pub open spec fn nibble(v: u64, s: int) -> u16 {
    ((v >> (4 * s) as u64) & 0x0Fu64) as u16
}

/// `m` is the matrix drawn from state `s`: row `i` is filled from four successive
/// draws, each draw giving 16 entries, least significant nibble first.
pub open spec fn drawn_from(s: XoshiroState, m: Matrix) -> bool {
    forall|i: int, j: int|
        0 <= i < 64 && 0 <= j < 64 ==> #[trigger] m.0[i][j] == nibble(
            xoshiro_nth(s, (4 * i + j / 16) as nat),
            j % 16,
        )
}

/// `m` is the matrix drawn at attempt `k` for the pre-PoW hash `h`.
pub open spec fn candidate(h: crate::hash::Hash, k: nat, m: Matrix) -> bool {
    drawn_from(xoshiro_advance(seed_state(h), 256 * k), m)
}

/// `rank_of` gave `m` a rank other than 64.
pub open spec fn rejected<F: Fn(&Matrix) -> usize>(rank_of: F, m: Matrix) -> bool {
    exists|r: usize| r != 64 && #[trigger] call_ensures(rank_of, (&m,), r)
}

/// `m` is the matrix that `generate` gives for `h` with the rank test `rank_of`: the
/// candidate of the first attempt to which `rank_of` gives rank 64, or that of attempt
/// `u64::MAX` when every one before it was rejected.
pub open spec fn generated<F: Fn(&Matrix) -> usize>(h: crate::hash::Hash, rank_of: F, m: Matrix) -> bool {
    exists|k: nat|
        #![trigger candidate(h, k, m)]
        k <= u64::MAX && candidate(h, k, m) && (call_ensures(rank_of, (&m,), 64usize) || k == u64::MAX)
            && forall|j: nat, other: Matrix|
            j < k && #[trigger] candidate(h, j, other) ==> rejected(rank_of, other)
}

/// Advancing by `a` draws and then by `b` draws is advancing by `a + b` draws.
pub proof fn lemma_advance_add(s: XoshiroState, a: nat, b: nat)
    ensures
        xoshiro_advance(xoshiro_advance(s, a), b) == xoshiro_advance(s, a + b),
    decreases b,
{
    if b > 0 {
        lemma_advance_add(s, a, (b - 1) as nat);
    }
}

/// Two matrices with the same entries are the same matrix.
pub proof fn lemma_same_entries(a: Matrix, b: Matrix)
    requires
        forall|i: int, j: int| 0 <= i < 64 && 0 <= j < 64 ==> a.0[i][j] == b.0[i][j],
    ensures
        a == b,
{
    assert forall|i: int| 0 <= i < 64 implies a.0[i] == b.0[i] by {
        assert(a.0[i]@ =~= b.0[i]@);
        vstd::array::axiom_array_ext_equal(a.0[i], b.0[i]);
    }
    assert(a.0@ =~= b.0@);
    vstd::array::axiom_array_ext_equal(a.0, b.0);
}

impl Matrix {
    /// Draws a 64 x 64 matrix of 4-bit entries from the generator, without looking at its rank.
    pub fn rand_matrix_no_rank_check(generator: &mut XoShiRo256PlusPlus) -> (m: Matrix)
        ensures
            drawn_from(old(generator).state(), m),
            final(generator).state() == xoshiro_advance(old(generator).state(), 256),
    {
        let ghost s0 = generator.state();
        let mut mat = Matrix([[0u16; 64]; 64]);
        let mut i: usize = 0;
        while i < 64
            invariant
                i <= 64,
                generator.state() == xoshiro_advance(s0, (4 * i) as nat),
                forall|a: int, b: int|
                    0 <= a < i && 0 <= b < 64 ==> #[trigger] mat.0[a][b] == nibble(
                        xoshiro_nth(s0, (4 * a + b / 16) as nat),
                        b % 16,
                    ),
            decreases 64 - i,
        {
            let mut j: usize = 0;
            while j < 64
                invariant
                    i < 64,
                    j <= 64,
                    j % 16 == 0,
                    generator.state() == xoshiro_advance(s0, (4 * i + j / 16) as nat),
                    forall|a: int, b: int|
                        0 <= a < i && 0 <= b < 64 ==> #[trigger] mat.0[a][b] == nibble(
                            xoshiro_nth(s0, (4 * a + b / 16) as nat),
                            b % 16,
                        ),
                    forall|b: int|
                        0 <= b < j ==> #[trigger] mat.0[i as int][b] == nibble(
                            xoshiro_nth(s0, (4 * i + b / 16) as nat),
                            b % 16,
                        ),
                decreases 64 - j,
            {
                let ghost before = generator.state();
                let val = generator.u64();
                assert(val == xoshiro_nth(s0, (4 * i + j / 16) as nat));
                let mut shift: usize = 0;
                while shift < 16
                    invariant
                        i < 64,
                        j < 64,
                        j % 16 == 0,
                        shift <= 16,
                        val == xoshiro_nth(s0, (4 * i + j / 16) as nat),
                        forall|a: int, b: int|
                            0 <= a < i && 0 <= b < 64 ==> #[trigger] mat.0[a][b] == nibble(
                                xoshiro_nth(s0, (4 * a + b / 16) as nat),
                                b % 16,
                            ),
                        forall|b: int|
                            0 <= b < j + shift ==> #[trigger] mat.0[i as int][b] == nibble(
                                xoshiro_nth(s0, (4 * i + b / 16) as nat),
                                b % 16,
                            ),
                    decreases 16 - shift,
                {
                    mat.0[i][j + shift] = ((val >> (4 * shift as u64)) & 0x0Fu64) as u16;
                    assert((j + shift) / 16 == j / 16 && (j + shift) % 16 == shift);
                    shift = shift + 1;
                }
                j = j + 16;
            }
            i = i + 1;
        }
        mat
    }

    /// The HeavyHash matrix of a pre-PoW hash: the first matrix drawn from the generator
    /// seeded with the hash to which `rank_of` gives rank 64. The rank test is the
    /// caller's. After `u64::MAX` rejected draws the last one drawn is returned.
    pub fn generate<F: Fn(&Matrix) -> usize>(hash: crate::hash::Hash, rank_of: F) -> (m: Matrix)
        requires
            forall|x: &Matrix| #[trigger] call_requires(rank_of, (x,)),
        ensures
            generated(hash, rank_of, m),
    {
        let mut generator = XoShiRo256PlusPlus::new(hash);
        let mut attempt: u64 = 0;
        loop
            invariant
                forall|x: &Matrix| #[trigger] call_requires(rank_of, (x,)),
                generator.state() == xoshiro_advance(seed_state(hash), 256 * attempt as nat),
                forall|j: nat, other: Matrix|
                    j < attempt && #[trigger] candidate(hash, j, other) ==> rejected(rank_of, other),
            decreases u64::MAX - attempt,
        {
            let ghost before = generator.state();
            let mat = Self::rand_matrix_no_rank_check(&mut generator);
            proof {
                lemma_advance_add(seed_state(hash), 256 * attempt as nat, 256);
                assert(candidate(hash, attempt as nat, mat));
            }
            let rank = rank_of(&mat);
            if rank == 64 || attempt == u64::MAX {
                return mat;
            }
            proof {
                assert forall|j: nat, other: Matrix|
                    j < attempt + 1 && #[trigger] candidate(hash, j, other) implies rejected(rank_of, other) by {
                    if j == attempt {
                        assert forall|a: int, b: int| 0 <= a < 64 && 0 <= b < 64 implies other.0[a][b] == mat.0[a][b] by {
                            assert(other.0[a][b] == nibble(xoshiro_nth(before, (4 * a + b / 16) as nat), b % 16));
                        }
                        lemma_same_entries(other, mat);
                    }
                }
            }
            attempt = attempt + 1;
        }
    }
}

/// Every entry of a drawn matrix is a 4-bit value.
pub proof fn lemma_drawn_entries_are_nibbles(s: XoshiroState, m: Matrix)
    requires
        drawn_from(s, m),
    ensures
        forall|i: int, j: int| 0 <= i < 64 && 0 <= j < 64 ==> #[trigger] m.0[i][j] < 16,
{
    assert forall|i: int, j: int| 0 <= i < 64 && 0 <= j < 64 implies #[trigger] m.0[i][j] < 16 by {
        let v = xoshiro_nth(s, (4 * i + j / 16) as nat);
        let sh = (4 * (j % 16)) as u64;
        assert((v >> sh) & 0x0Fu64 < 16) by (bit_vector);
    }
}

/// With a rank test that gives each matrix one answer, the matrix of a pre-PoW hash depends
/// on the hash alone: two matrices that both meet what `generate` promises for one hash are
/// the same matrix.
pub proof fn lemma_generated_unique<F: Fn(&Matrix) -> usize>(h: crate::hash::Hash, rank_of: F, m1: Matrix, m2: Matrix)
    requires
        forall|x: Matrix, r1: usize, r2: usize|
            #[trigger] call_ensures(rank_of, (&x,), r1) && #[trigger] call_ensures(rank_of, (&x,), r2) ==> r1 == r2,
        generated(h, rank_of, m1),
        generated(h, rank_of, m2),
    ensures
        m1 == m2,
{
    let k1 = choose|k: nat|
        #![trigger candidate(h, k, m1)]
        k <= u64::MAX && candidate(h, k, m1) && (call_ensures(rank_of, (&m1,), 64usize) || k == u64::MAX)
            && forall|j: nat, other: Matrix|
            j < k && #[trigger] candidate(h, j, other) ==> rejected(rank_of, other);
    let k2 = choose|k: nat|
        #![trigger candidate(h, k, m2)]
        k <= u64::MAX && candidate(h, k, m2) && (call_ensures(rank_of, (&m2,), 64usize) || k == u64::MAX)
            && forall|j: nat, other: Matrix|
            j < k && #[trigger] candidate(h, j, other) ==> rejected(rank_of, other);
    if k1 < k2 {
        assert(rejected(rank_of, m1));
        let r = choose|r: usize| r != 64 && #[trigger] call_ensures(rank_of, (&m1,), r);
        assert(call_ensures(rank_of, (&m1,), 64usize));
    } else if k2 < k1 {
        assert(rejected(rank_of, m2));
        let r = choose|r: usize| r != 64 && #[trigger] call_ensures(rank_of, (&m2,), r);
        assert(call_ensures(rank_of, (&m2,), 64usize));
    } else {
        let s = xoshiro_advance(seed_state(h), 256 * k1);
        assert forall|i: int, j: int| 0 <= i < 64 && 0 <= j < 64 implies m1.0[i][j] == m2.0[i][j] by {
            assert(m1.0[i][j] == nibble(xoshiro_nth(s, (4 * i + j / 16) as nat), j % 16));
            assert(m2.0[i][j] == nibble(xoshiro_nth(s, (4 * i + j / 16) as nat), j % 16));
        }
        lemma_same_entries(m1, m2);
    }
}

} // verus!
