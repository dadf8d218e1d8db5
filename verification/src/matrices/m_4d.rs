//! 4x4 transform matrices: product, transpose, determinant by cofactor
//! expansion, and the adjugate inverse.

use super::m_3d::{det3_entries, skip_idx, Matrix3D};
use crate::base_types::{t4, Coordinates, T4};
use crate::scalar::{s_add, s_div, s_mul, Scalar, SCALE};
use vstd::prelude::*;

verus! {

#[derive(Clone, Copy, Debug, PartialEq)]
pub struct Matrix {
    pub rows: [[Scalar; 4]; 4],
}

/// The minor of entry `(i, j)`: the determinant of the 3x3 sub-matrix
/// with row `i` and column `j` excluded. Kept opaque: the expansion is
/// large, and most callers only name it.
#[verifier::opaque]
pub open spec fn minor4_of(m: Matrix, i: int, j: int) -> int {
    det3_entries(
        m.rows[skip_idx(0, i)][skip_idx(0, j)]@,
        m.rows[skip_idx(0, i)][skip_idx(1, j)]@,
        m.rows[skip_idx(0, i)][skip_idx(2, j)]@,
        m.rows[skip_idx(1, i)][skip_idx(0, j)]@,
        m.rows[skip_idx(1, i)][skip_idx(1, j)]@,
        m.rows[skip_idx(1, i)][skip_idx(2, j)]@,
        m.rows[skip_idx(2, i)][skip_idx(0, j)]@,
        m.rows[skip_idx(2, i)][skip_idx(1, j)]@,
        m.rows[skip_idx(2, i)][skip_idx(2, j)]@,
    )
}

/// The cofactor of entry `(i, j)`: the minor, negated on the odd
/// positions of the checkerboard.
pub open spec fn cof4_of(m: Matrix, i: int, j: int) -> int {
    if (i + j) % 2 == 0 {
        minor4_of(m, i, j)
    } else {
        -minor4_of(m, i, j)
    }
}

/// Determinant of a 4x4 matrix by cofactor expansion along the first row.
pub open spec fn det4_of(m: Matrix) -> int {
    s_add(
        s_add(
            s_add(s_mul(m.rows[0][0]@, cof4_of(m, 0, 0)), s_mul(m.rows[0][1]@, cof4_of(m, 0, 1))),
            s_mul(m.rows[0][2]@, cof4_of(m, 0, 2)),
        ),
        s_mul(m.rows[0][3]@, cof4_of(m, 0, 3)),
    )
}

/// Entry `(i, j)` of the matrix product `a * b`.
pub open spec fn mul_entry_of(a: Matrix, b: Matrix, i: int, j: int) -> int {
    s_add(
        s_add(
            s_add(s_mul(a.rows[i][0]@, b.rows[0][j]@), s_mul(a.rows[i][1]@, b.rows[1][j]@)),
            s_mul(a.rows[i][2]@, b.rows[2][j]@),
        ),
        s_mul(a.rows[i][3]@, b.rows[3][j]@),
    )
}

/// A matrix applied to a coordinate: the first three rows are dotted with
/// the coordinate, and the `w` tag is passed through.
pub open spec fn m4_apply(m: Matrix, v: T4) -> T4 {
    (
        s_add(
            s_add(s_add(s_mul(m.rows[0][0]@, v.0), s_mul(m.rows[0][1]@, v.1)), s_mul(m.rows[0][2]@, v.2)),
            s_mul(m.rows[0][3]@, v.3),
        ),
        s_add(
            s_add(s_add(s_mul(m.rows[1][0]@, v.0), s_mul(m.rows[1][1]@, v.1)), s_mul(m.rows[1][2]@, v.2)),
            s_mul(m.rows[1][3]@, v.3),
        ),
        s_add(
            s_add(s_add(s_mul(m.rows[2][0]@, v.0), s_mul(m.rows[2][1]@, v.1)), s_mul(m.rows[2][2]@, v.2)),
            s_mul(m.rows[2][3]@, v.3),
        ),
        v.3,
    )
}

/// Entry `(i, j)` of the adjugate inverse of `m`: the transposed
/// cofactor over the determinant (meaningful when the determinant is not
/// zero).
pub open spec fn inv4_entry(m: Matrix, i: int, j: int) -> int {
    s_div(cof4_of(m, j, i), det4_of(m))
}

/// Each inverse entry is the rational adjugate entry to within one part
/// of the determinant: before clamping to range, the stored quotient
/// behind `inv4_entry(m, i, j)` multiplied back by the determinant
/// lands within one determinant of the scaled cofactor. The full round
/// trip — the product of a matrix with its inverse staying within the
/// comparison tolerance of the identity — additionally rests on the
/// adjugate identity of the cofactor expansion; its truncation analysis
/// is not carried out here, and the round trip is exercised at run time
/// instead.
pub proof fn lemma_inverse_entry_precision(m: Matrix, i: int, j: int)
    requires
        det4_of(m) != 0,
    ensures
        inv4_entry(m, i, j) == crate::scalar::sat(
            crate::scalar::tdiv(cof4_of(m, j, i) * SCALE, det4_of(m)),
        ),
        crate::scalar::iabs(
            det4_of(m) * crate::scalar::tdiv(cof4_of(m, j, i) * SCALE, det4_of(m)) - cof4_of(
                m,
                j,
                i,
            ) * SCALE,
        ) < crate::scalar::iabs(det4_of(m)),
{
    crate::scalar::lemma_tdiv_close(cof4_of(m, j, i) * SCALE, det4_of(m));
}

/// The determinant of the identity matrix is one.
pub proof fn lemma_identity_det(m: Matrix)
    requires
        is_identity(m),
    ensures
        det4_of(m) == SCALE,
{
    reveal(minor4_of);
    crate::scalar::lemma_s_mul_facts();
}

/// The identity matrix is its own inverse, entry by entry.
pub proof fn lemma_identity_inv_entries(m: Matrix)
    requires
        is_identity(m),
    ensures
        forall|i: int, j: int|
            0 <= i < 4 && 0 <= j < 4 ==> #[trigger] inv4_entry(m, i, j) == if i == j {
                SCALE as int
            } else {
                0
            },
{
    reveal(minor4_of);
    crate::scalar::lemma_s_mul_facts();
    lemma_identity_det(m);
    assert forall|i: int, j: int|
        0 <= i < 4 && 0 <= j < 4 implies #[trigger] inv4_entry(m, i, j) == if i == j {
        SCALE as int
    } else {
        0
    } by {
        assert(cof4_of(m, j, i) == if i == j {
            SCALE as int
        } else {
            0
        });
    }
}

/// Applying the inverse of the identity matrix gives the coordinate
/// back, as long as its components are in range.
pub proof fn lemma_identity_inv_apply(m: Matrix, v: T4)
    requires
        is_identity(m),
        crate::scalar::in_range(v.0),
        crate::scalar::in_range(v.1),
        crate::scalar::in_range(v.2),
        crate::scalar::in_range(v.3),
    ensures
        m4_inv_apply(m, v) == v,
        m4_invt_apply(m, v) == v,
{
    lemma_identity_inv_entries(m);
    crate::scalar::lemma_s_mul_one(v.0);
    crate::scalar::lemma_s_mul_one(v.1);
    crate::scalar::lemma_s_mul_one(v.2);
    crate::scalar::lemma_s_mul_one(v.3);
    crate::scalar::lemma_s_mul_zero(v.0);
    crate::scalar::lemma_s_mul_zero(v.1);
    crate::scalar::lemma_s_mul_zero(v.2);
    crate::scalar::lemma_s_mul_zero(v.3);
}

/// The inverse of `m` applied to a coordinate, entry by entry, with the
/// `w` tag passed through.
pub open spec fn m4_inv_apply(m: Matrix, v: T4) -> T4 {
    (
        s_add(
            s_add(
                s_add(s_mul(inv4_entry(m, 0, 0), v.0), s_mul(inv4_entry(m, 0, 1), v.1)),
                s_mul(inv4_entry(m, 0, 2), v.2),
            ),
            s_mul(inv4_entry(m, 0, 3), v.3),
        ),
        s_add(
            s_add(
                s_add(s_mul(inv4_entry(m, 1, 0), v.0), s_mul(inv4_entry(m, 1, 1), v.1)),
                s_mul(inv4_entry(m, 1, 2), v.2),
            ),
            s_mul(inv4_entry(m, 1, 3), v.3),
        ),
        s_add(
            s_add(
                s_add(s_mul(inv4_entry(m, 2, 0), v.0), s_mul(inv4_entry(m, 2, 1), v.1)),
                s_mul(inv4_entry(m, 2, 2), v.2),
            ),
            s_mul(inv4_entry(m, 2, 3), v.3),
        ),
        v.3,
    )
}

/// The transpose of the inverse of `m` applied to a coordinate, with the
/// `w` tag passed through.
pub open spec fn m4_invt_apply(m: Matrix, v: T4) -> T4 {
    (
        s_add(
            s_add(
                s_add(s_mul(inv4_entry(m, 0, 0), v.0), s_mul(inv4_entry(m, 1, 0), v.1)),
                s_mul(inv4_entry(m, 2, 0), v.2),
            ),
            s_mul(inv4_entry(m, 3, 0), v.3),
        ),
        s_add(
            s_add(
                s_add(s_mul(inv4_entry(m, 0, 1), v.0), s_mul(inv4_entry(m, 1, 1), v.1)),
                s_mul(inv4_entry(m, 2, 1), v.2),
            ),
            s_mul(inv4_entry(m, 3, 1), v.3),
        ),
        s_add(
            s_add(
                s_add(s_mul(inv4_entry(m, 0, 2), v.0), s_mul(inv4_entry(m, 1, 2), v.1)),
                s_mul(inv4_entry(m, 2, 2), v.2),
            ),
            s_mul(inv4_entry(m, 3, 2), v.3),
        ),
        v.3,
    )
}

/// Applying a matrix whose entries are the inverse's entries is applying
/// the inverse.
pub proof fn lemma_inverse_apply(m: Matrix, inv: Matrix, v: T4)
    requires
        forall|i: int, j: int|
            0 <= i < 4 && 0 <= j < 4 ==> #[trigger] inv.rows[i][j]@ == inv4_entry(m, i, j),
    ensures
        m4_apply(inv, v) == m4_inv_apply(m, v),
{
}

/// Applying the transpose of a matrix whose entries are the inverse's
/// entries is applying the transpose of the inverse.
pub proof fn lemma_inverse_transpose_apply(m: Matrix, invt: Matrix, v: T4)
    requires
        forall|i: int, j: int|
            0 <= i < 4 && 0 <= j < 4 ==> #[trigger] invt.rows[i][j]@ == inv4_entry(m, j, i),
    ensures
        m4_apply(invt, v) == m4_invt_apply(m, v),
{
}

/// All sixteen entries of the two matrices within the comparison
/// tolerance of one another.
pub open spec fn mat_feq(a: Matrix, b: Matrix) -> bool {
    forall|i: int, j: int|
        0 <= i < 4 && 0 <= j < 4 ==> crate::base_types::feq(
            #[trigger] a.rows[i][j]@,
            #[trigger] b.rows[i][j]@,
        )
}

/// The identity matrix carries one on the diagonal, zero elsewhere.
pub open spec fn is_identity(m: Matrix) -> bool {
    forall|i: int, j: int|
        0 <= i < 4 && 0 <= j < 4 ==> #[trigger] m.rows[i][j]@ == if i == j {
            SCALE as int
        } else {
            0
        }
}

impl Matrix {
    /// The zero matrix.
    pub fn new() -> (r: Self)
        ensures
            forall|i: int, j: int| 0 <= i < 4 && 0 <= j < 4 ==> #[trigger] r.rows[i][j]@ == 0,
    {
        let z = Scalar::zero();
        Self { rows: [[z, z, z, z], [z, z, z, z], [z, z, z, z], [z, z, z, z]] }
    }

    pub fn new_with_rows(rows: [[Scalar; 4]; 4]) -> (r: Self)
        ensures
            r.rows == rows,
    {
        Self { rows }
    }

    /// The identity matrix.
    pub fn new_identity() -> (r: Self)
        ensures
            is_identity(r),
    {
        let z = Scalar::zero();
        let o = Scalar::one();
        Self { rows: [[o, z, z, z], [z, o, z, z], [z, z, o, z], [z, z, z, o]] }
    }

    /// The adjugate inverse: `Some` exactly when the determinant is not
    /// zero, and then each entry `(i, j)` is the cofactor at `(j, i)`
    /// divided by the determinant.
    #[verifier::rlimit(100)]
    pub fn inverse(&self) -> (r: Option<Self>)
        ensures
            r is Some <==> det4_of(*self) != 0,
            r is Some ==> forall|i: int, j: int|
                0 <= i < 4 && 0 <= j < 4 ==> #[trigger] r->Some_0.rows[i][j]@ == s_div(
                    cof4_of(*self, j, i),
                    det4_of(*self),
                ),
    {
        let determinant = self.determinant();
        if determinant.is_zero() {
            return None;
        }
        let d = determinant;
        let rows = [
            [
                self.inv_entry(d, 0, 0),
                self.inv_entry(d, 0, 1),
                self.inv_entry(d, 0, 2),
                self.inv_entry(d, 0, 3),
            ],
            [
                self.inv_entry(d, 1, 0),
                self.inv_entry(d, 1, 1),
                self.inv_entry(d, 1, 2),
                self.inv_entry(d, 1, 3),
            ],
            [
                self.inv_entry(d, 2, 0),
                self.inv_entry(d, 2, 1),
                self.inv_entry(d, 2, 2),
                self.inv_entry(d, 2, 3),
            ],
            [
                self.inv_entry(d, 3, 0),
                self.inv_entry(d, 3, 1),
                self.inv_entry(d, 3, 2),
                self.inv_entry(d, 3, 3),
            ],
        ];
        Some(Self { rows })
    }

    /// Entry `(i, j)` of the adjugate inverse: the transposed cofactor
    /// over the determinant.
    fn inv_entry(&self, d: Scalar, i: usize, j: usize) -> (r: Scalar)
        requires
            i < 4,
            j < 4,
            d@ == det4_of(*self),
            d@ != 0,
        ensures
            r@ == s_div(cof4_of(*self, j as int, i as int), det4_of(*self)),
    {
        self.cofactor(j, i).div(d)
    }

    /// The matrix with rows and columns exchanged.
    pub fn transpose(&self) -> (r: Self)
        ensures
            forall|i: int, j: int|
                0 <= i < 4 && 0 <= j < 4 ==> #[trigger] r.rows[i][j] == self.rows[j][i],
    {
        Self {
            rows: [
                [self.rows[0][0], self.rows[1][0], self.rows[2][0], self.rows[3][0]],
                [self.rows[0][1], self.rows[1][1], self.rows[2][1], self.rows[3][1]],
                [self.rows[0][2], self.rows[1][2], self.rows[2][2], self.rows[3][2]],
                [self.rows[0][3], self.rows[1][3], self.rows[2][3], self.rows[3][3]],
            ],
        }
    }

    /// The 4x4 matrix product.
    pub fn mul(&self, rhs: &Self) -> (r: Self)
        ensures
            forall|i: int, j: int|
                0 <= i < 4 && 0 <= j < 4 ==> #[trigger] r.rows[i][j]@ == mul_entry_of(
                    *self,
                    *rhs,
                    i,
                    j,
                ),
    {
        let rows = [
            [
                self.row_dot(rhs, 0, 0),
                self.row_dot(rhs, 0, 1),
                self.row_dot(rhs, 0, 2),
                self.row_dot(rhs, 0, 3),
            ],
            [
                self.row_dot(rhs, 1, 0),
                self.row_dot(rhs, 1, 1),
                self.row_dot(rhs, 1, 2),
                self.row_dot(rhs, 1, 3),
            ],
            [
                self.row_dot(rhs, 2, 0),
                self.row_dot(rhs, 2, 1),
                self.row_dot(rhs, 2, 2),
                self.row_dot(rhs, 2, 3),
            ],
            [
                self.row_dot(rhs, 3, 0),
                self.row_dot(rhs, 3, 1),
                self.row_dot(rhs, 3, 2),
                self.row_dot(rhs, 3, 3),
            ],
        ];
        Self { rows }
    }

    /// Row `i` of `self` dotted with column `j` of `rhs`.
    fn row_dot(&self, rhs: &Self, i: usize, j: usize) -> (r: Scalar)
        requires
            i < 4,
            j < 4,
        ensures
            r@ == mul_entry_of(*self, *rhs, i as int, j as int),
    {
        self.rows[i][0].mul(rhs.rows[0][j]).add(self.rows[i][1].mul(rhs.rows[1][j])).add(
            self.rows[i][2].mul(rhs.rows[2][j]),
        ).add(self.rows[i][3].mul(rhs.rows[3][j]))
    }

    /// The matrix applied to a coordinate; the `w` tag is kept.
    pub fn coords_mul(&self, rhs: Coordinates) -> (r: Coordinates)
        ensures
            t4(r) == m4_apply(*self, t4(rhs)),
    {
        Coordinates {
            x: self.rows[0][0].mul(rhs.x).add(self.rows[0][1].mul(rhs.y)).add(
                self.rows[0][2].mul(rhs.z),
            ).add(self.rows[0][3].mul(rhs.w)),
            y: self.rows[1][0].mul(rhs.x).add(self.rows[1][1].mul(rhs.y)).add(
                self.rows[1][2].mul(rhs.z),
            ).add(self.rows[1][3].mul(rhs.w)),
            z: self.rows[2][0].mul(rhs.x).add(self.rows[2][1].mul(rhs.y)).add(
                self.rows[2][2].mul(rhs.z),
            ).add(self.rows[2][3].mul(rhs.w)),
            w: rhs.w,
        }
    }

    /// All entries within the comparison tolerance of `rhs`.
    pub fn equal(&self, rhs: &Self) -> (r: bool)
        ensures
            r == mat_feq(*self, *rhs),
    {
        let mut i: usize = 0;
        while i < 4
            invariant
                i <= 4,
                forall|p: int, q: int|
                    0 <= p < i && 0 <= q < 4 ==> crate::base_types::feq(
                        #[trigger] self.rows[p][q]@,
                        #[trigger] rhs.rows[p][q]@,
                    ),
            decreases 4 - i,
        {
            let mut j: usize = 0;
            while j < 4
                invariant
                    i < 4,
                    j <= 4,
                    forall|p: int, q: int|
                        0 <= p < i && 0 <= q < 4 ==> crate::base_types::feq(
                            #[trigger] self.rows[p][q]@,
                            #[trigger] rhs.rows[p][q]@,
                        ),
                    forall|q: int|
                        0 <= q < j ==> crate::base_types::feq(
                            #[trigger] self.rows[i as int][q]@,
                            rhs.rows[i as int][q]@,
                        ),
                decreases 4 - j,
            {
                if !crate::utils::float_equal(self.rows[i][j], rhs.rows[i][j]) {
                    return false;
                }
                j = j + 1;
            }
            i = i + 1;
        }
        true
    }

    /// Every entry divided by `rhs`.
    fn scalar_div(self, rhs: Scalar) -> (r: Self)
        requires
            rhs@ != 0,
        ensures
            forall|i: int, j: int|
                0 <= i < 4 && 0 <= j < 4 ==> #[trigger] r.rows[i][j]@ == s_div(
                    self.rows[i][j]@,
                    rhs@,
                ),
    {
        let rows = [
            [
                self.rows[0][0].div(rhs),
                self.rows[0][1].div(rhs),
                self.rows[0][2].div(rhs),
                self.rows[0][3].div(rhs),
            ],
            [
                self.rows[1][0].div(rhs),
                self.rows[1][1].div(rhs),
                self.rows[1][2].div(rhs),
                self.rows[1][3].div(rhs),
            ],
            [
                self.rows[2][0].div(rhs),
                self.rows[2][1].div(rhs),
                self.rows[2][2].div(rhs),
                self.rows[2][3].div(rhs),
            ],
            [
                self.rows[3][0].div(rhs),
                self.rows[3][1].div(rhs),
                self.rows[3][2].div(rhs),
                self.rows[3][3].div(rhs),
            ],
        ];
        Self { rows }
    }

    /// The 3x3 sub-matrix with the given row and column excluded.
    pub fn sub_matrix(&self, row_to_exclude: usize, col_to_exclude: usize) -> (r: Matrix3D)
        ensures
            forall|k: int, l: int|
                0 <= k < 3 && 0 <= l < 3 ==> #[trigger] r.rows[k][l]
                    == self.rows[skip_idx(k, row_to_exclude as int)][skip_idx(
                    l,
                    col_to_exclude as int,
                )],
    {
        let r0: usize = if row_to_exclude == 0 {
            1
        } else {
            0
        };
        let r1: usize = if row_to_exclude <= 1 {
            2
        } else {
            1
        };
        let r2: usize = if row_to_exclude <= 2 {
            3
        } else {
            2
        };
        let c0: usize = if col_to_exclude == 0 {
            1
        } else {
            0
        };
        let c1: usize = if col_to_exclude <= 1 {
            2
        } else {
            1
        };
        let c2: usize = if col_to_exclude <= 2 {
            3
        } else {
            2
        };
        Matrix3D {
            rows: [
                [self.rows[r0][c0], self.rows[r0][c1], self.rows[r0][c2]],
                [self.rows[r1][c0], self.rows[r1][c1], self.rows[r1][c2]],
                [self.rows[r2][c0], self.rows[r2][c1], self.rows[r2][c2]],
            ],
        }
    }

    /// The determinant of the sub-matrix at `(row, col)`.
    pub fn minor(&self, row: usize, col: usize) -> (r: Scalar)
        ensures
            r@ == minor4_of(*self, row as int, col as int),
    {
        proof {
            reveal(minor4_of);
        }
        self.sub_matrix(row, col).determinant()
    }

    /// The signed minor at `(row, col)`.
    pub fn cofactor(&self, row: usize, col: usize) -> (r: Scalar)
        requires
            row < 4,
            col < 4,
        ensures
            r@ == cof4_of(*self, row as int, col as int),
    {
        let minor = self.minor(row, col);
        if (row + col) % 2 == 0 || minor.is_zero() {
            return minor;
        }
        minor.neg()
    }

    /// The determinant, by cofactor expansion along the first row.
    pub fn determinant(&self) -> (r: Scalar)
        ensures
            r@ == det4_of(*self),
    {
        self.rows[0][0].mul(self.cofactor(0, 0)).add(
            self.rows[0][1].mul(self.cofactor(0, 1)),
        ).add(self.rows[0][2].mul(self.cofactor(0, 2))).add(
            self.rows[0][3].mul(self.cofactor(0, 3)),
        )
    }
}

impl Default for Matrix {
    /// The zero matrix.
    fn default() -> (r: Self)
        ensures
            forall|i: int, j: int| 0 <= i < 4 && 0 <= j < 4 ==> #[trigger] r.rows[i][j]@ == 0,
    {
        Self::new()
    }
}

} // verus!
