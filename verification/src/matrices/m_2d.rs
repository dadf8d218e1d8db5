//! 2x2 matrices: the base case of the cofactor expansion.

use crate::scalar::{s_mul, s_sub, Scalar};
use vstd::prelude::*;

verus! {

#[derive(Clone, Copy, Debug, PartialEq)]
pub struct Matrix2D {
    pub rows: [[Scalar; 2]; 2],
}

/// Determinant of a 2x2 matrix: `a*d - c*b`.
pub open spec fn det2_of(m: Matrix2D) -> int {
    s_sub(s_mul(m.rows[0][0]@, m.rows[1][1]@), s_mul(m.rows[1][0]@, m.rows[0][1]@))
}

impl Matrix2D {
    pub fn new_with_rows(rows: [[Scalar; 2]; 2]) -> (r: Self)
        ensures
            r.rows == rows,
    {
        Self { rows }
    }

    /// The determinant.
    pub fn determinant(&self) -> (r: Scalar)
        ensures
            r@ == det2_of(*self),
    {
        self.rows[0][0].mul(self.rows[1][1]).sub(self.rows[1][0].mul(self.rows[0][1]))
    }
}

} // verus!
