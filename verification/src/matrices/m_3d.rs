//! 3x3 matrices: minors, cofactors and the determinant, by expansion
//! down to 2x2 sub-matrices.

use super::m_2d::Matrix2D;
use crate::scalar::{s_add, s_mul, Scalar};
use vstd::prelude::*;

verus! {

#[derive(Clone, Copy, Debug, PartialEq)]
pub struct Matrix3D {
    pub rows: [[Scalar; 3]; 3],
}

/// Index `k` of a sub-matrix, mapped to its row or column in the parent
/// when row or column `ex` is excluded.
pub open spec fn skip_idx(k: int, ex: int) -> int {
    if k < ex {
        k
    } else {
        k + 1
    }
}

/// The minor of entry `(i, j)`: the determinant of the 2x2 sub-matrix
/// with row `i` and column `j` excluded.
pub open spec fn minor3_of(m: Matrix3D, i: int, j: int) -> int {
    let a = m.rows[skip_idx(0, i)][skip_idx(0, j)]@;
    let b = m.rows[skip_idx(0, i)][skip_idx(1, j)]@;
    let c = m.rows[skip_idx(1, i)][skip_idx(0, j)]@;
    let d = m.rows[skip_idx(1, i)][skip_idx(1, j)]@;
    crate::scalar::s_sub(s_mul(a, d), s_mul(c, b))
}

/// The cofactor of entry `(i, j)`: the minor, negated on the odd
/// positions of the checkerboard.
pub open spec fn cof3_of(m: Matrix3D, i: int, j: int) -> int {
    if (i + j) % 2 == 0 {
        minor3_of(m, i, j)
    } else {
        -minor3_of(m, i, j)
    }
}

/// Determinant of a 3x3 matrix given as nine entries, by cofactor
/// expansion along the first row.
pub open spec fn det3_entries(
    e00: int,
    e01: int,
    e02: int,
    e10: int,
    e11: int,
    e12: int,
    e20: int,
    e21: int,
    e22: int,
) -> int {
    let c00 = crate::scalar::s_sub(s_mul(e11, e22), s_mul(e21, e12));
    let c01 = -crate::scalar::s_sub(s_mul(e10, e22), s_mul(e20, e12));
    let c02 = crate::scalar::s_sub(s_mul(e10, e21), s_mul(e20, e11));
    s_add(s_add(s_mul(e00, c00), s_mul(e01, c01)), s_mul(e02, c02))
}

/// Determinant of a 3x3 matrix by cofactor expansion along the first row.
pub open spec fn det3_of(m: Matrix3D) -> int {
    det3_entries(
        m.rows[0][0]@,
        m.rows[0][1]@,
        m.rows[0][2]@,
        m.rows[1][0]@,
        m.rows[1][1]@,
        m.rows[1][2]@,
        m.rows[2][0]@,
        m.rows[2][1]@,
        m.rows[2][2]@,
    )
}

impl Matrix3D {
    pub fn new_with_rows(rows: [[Scalar; 3]; 3]) -> (r: Self)
        ensures
            r.rows == rows,
    {
        Self { rows }
    }

    /// The 2x2 sub-matrix with the given row and column excluded.
    pub fn sub_matrix(&self, row_to_exclude: usize, col_to_exclude: usize) -> (r: Matrix2D)
        ensures
            forall|k: int, l: int|
                0 <= k < 2 && 0 <= l < 2 ==> #[trigger] r.rows[k][l]
                    == self.rows[skip_idx(k, row_to_exclude as int)][skip_idx(
                    l,
                    col_to_exclude as int,
                )],
    {
        let r0: usize = if row_to_exclude == 0 {
            1
        } else {
            0
        };
        let r1: usize = if row_to_exclude <= 1 {
            2
        } else {
            1
        };
        let c0: usize = if col_to_exclude == 0 {
            1
        } else {
            0
        };
        let c1: usize = if col_to_exclude <= 1 {
            2
        } else {
            1
        };
        Matrix2D {
            rows: [
                [self.rows[r0][c0], self.rows[r0][c1]],
                [self.rows[r1][c0], self.rows[r1][c1]],
            ],
        }
    }

    /// The determinant of the sub-matrix at `(row, col)`.
    pub fn minor(&self, row: usize, col: usize) -> (r: Scalar)
        ensures
            r@ == minor3_of(*self, row as int, col as int),
    {
        self.sub_matrix(row, col).determinant()
    }

    /// The signed minor at `(row, col)`.
    pub fn cofactor(&self, row: usize, col: usize) -> (r: Scalar)
        requires
            row < 3,
            col < 3,
        ensures
            r@ == cof3_of(*self, row as int, col as int),
    {
        let minor = self.minor(row, col);
        if (row + col) % 2 == 0 || minor.is_zero() {
            return minor;
        }
        minor.neg()
    }

    /// The determinant, by cofactor expansion along the first row.
    pub fn determinant(&self) -> (r: Scalar)
        ensures
            r@ == det3_of(*self),
    {
        self.rows[0][0].mul(self.cofactor(0, 0)).add(
            self.rows[0][1].mul(self.cofactor(0, 1)),
        ).add(self.rows[0][2].mul(self.cofactor(0, 2)))
    }
}

} // verus!
