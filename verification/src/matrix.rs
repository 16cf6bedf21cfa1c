//! The 64 x 64 matrix of 4-bit entries at the heart of HeavyHash.
use vstd::prelude::*;

verus! {

/// A 64 x 64 matrix; the HeavyHash matrices hold 4-bit values.
#[derive(Debug, Clone, PartialEq, Eq, PartialOrd, Ord)]
pub struct Matrix(pub [[u16; 64]; 64]);

/// The sum of `u[t] * v[t]` over `t < n`.
pub open spec fn dot(u: Seq<int>, v: Seq<int>, n: nat) -> int
    decreases n,
{
    if n == 0 {
        0
    } else {
        dot(u, v, (n - 1) as nat) + u[n - 1] * v[n - 1]
    }
}

impl Matrix {
    /// The entries of the matrix as integers, row by row.
    pub open spec fn rows(self) -> Seq<Seq<int>> {
        Seq::new(64, |r: int| Seq::new(64, |c: int| self.0[r][c] as int))
    }
}

} // verus!
