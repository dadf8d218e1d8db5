//! The standard affine transforms: translation, scaling, rotation about
//! each axis, shearing, and the camera view transform.
//!
//! The rotation constructors take the cosine and sine of the angle as
//! scalars: evaluating the trigonometric functions themselves is left to
//! the caller at the edge of the library.

use super::m_4d::Matrix;
use crate::base_types::{is_point, sp_cross, sp_mag, sp_normalize, sp_sub, t4, Point, Vector, T4};
use crate::scalar::{s_add, s_mul, Scalar, SCALE};
use vstd::prelude::*;

verus! {

/// Entry `(i, j)` of a translation by `(x, y, z)`.
pub open spec fn translation_entry(x: int, y: int, z: int, i: int, j: int) -> int {
    if i == 0 && j == 3 {
        x
    } else if i == 1 && j == 3 {
        y
    } else if i == 2 && j == 3 {
        z
    } else if i == j {
        SCALE as int
    } else {
        0
    }
}

/// Entry `(i, j)` of a scaling by `(x, y, z)`.
pub open spec fn scaling_entry(x: int, y: int, z: int, i: int, j: int) -> int {
    if i == 0 && j == 0 {
        x
    } else if i == 1 && j == 1 {
        y
    } else if i == 2 && j == 2 {
        z
    } else if i == j {
        SCALE as int
    } else {
        0
    }
}

/// Entry `(i, j)` of a rotation about the x axis.
pub open spec fn rotation_x_entry(cos: int, sin: int, i: int, j: int) -> int {
    if i == 1 && j == 1 {
        cos
    } else if i == 1 && j == 2 {
        -sin
    } else if i == 2 && j == 1 {
        sin
    } else if i == 2 && j == 2 {
        cos
    } else if i == j {
        SCALE as int
    } else {
        0
    }
}

/// Entry `(i, j)` of a rotation about the y axis.
pub open spec fn rotation_y_entry(cos: int, sin: int, i: int, j: int) -> int {
    if i == 0 && j == 0 {
        cos
    } else if i == 0 && j == 2 {
        sin
    } else if i == 2 && j == 0 {
        -sin
    } else if i == 2 && j == 2 {
        cos
    } else if i == j {
        SCALE as int
    } else {
        0
    }
}

/// Entry `(i, j)` of a rotation about the z axis.
pub open spec fn rotation_z_entry(cos: int, sin: int, i: int, j: int) -> int {
    if i == 0 && j == 0 {
        cos
    } else if i == 0 && j == 1 {
        -sin
    } else if i == 1 && j == 0 {
        sin
    } else if i == 1 && j == 1 {
        cos
    } else if i == j {
        SCALE as int
    } else {
        0
    }
}

/// Entry `(i, j)` of a shear by the six coefficients.
pub open spec fn shearing_entry(
    xy: int,
    xz: int,
    yx: int,
    yz: int,
    zx: int,
    zy: int,
    i: int,
    j: int,
) -> int {
    if i == 0 && j == 1 {
        xy
    } else if i == 0 && j == 2 {
        xz
    } else if i == 1 && j == 0 {
        yx
    } else if i == 1 && j == 2 {
        yz
    } else if i == 2 && j == 0 {
        zx
    } else if i == 2 && j == 1 {
        zy
    } else if i == j {
        SCALE as int
    } else {
        0
    }
}

/// The camera's forward basis vector: toward `to`, unit length.
pub open spec fn vt_forward(from: T4, to: T4) -> T4 {
    sp_normalize(sp_sub(to, from))
}

/// The camera's left basis vector.
pub open spec fn vt_left(from: T4, to: T4, up: T4) -> T4 {
    sp_cross(vt_forward(from, to), sp_normalize(up))
}

/// The camera's true-up basis vector.
pub open spec fn vt_true_up(from: T4, to: T4, up: T4) -> T4 {
    sp_cross(vt_left(from, to, up), vt_forward(from, to))
}

/// The determinant of a scaling matrix: the product of its three
/// factors, so a scaling is invertible exactly when no factor's product
/// vanishes on the grid.
pub proof fn lemma_scaling_det(m: Matrix, x: int, y: int, z: int)
    requires
        crate::scalar::in_range(x),
        crate::scalar::in_range(y),
        crate::scalar::in_range(z),
        forall|i: int, j: int|
            0 <= i < 4 && 0 <= j < 4 ==> #[trigger] m.rows[i][j]@ == scaling_entry(x, y, z, i, j),
    ensures
        crate::matrices::det4_of(m) == s_mul(x, s_mul(y, z)),
{
    reveal(crate::matrices::minor4_of);
    crate::scalar::lemma_s_mul_zero(x);
    crate::scalar::lemma_s_mul_zero(y);
    crate::scalar::lemma_s_mul_zero(z);
    crate::scalar::lemma_s_mul_zero(SCALE as int);
    crate::scalar::lemma_s_mul_zero(s_mul(y, z));
    crate::scalar::lemma_s_mul_zero(s_mul(x, y));
    crate::scalar::lemma_s_mul_one(z);
    crate::scalar::lemma_s_mul_one(s_mul(y, z));
}

/// The determinant of a translation matrix is one: a translation is
/// always invertible.
pub proof fn lemma_translation_det(m: Matrix, x: int, y: int, z: int)
    requires
        crate::scalar::in_range(x),
        crate::scalar::in_range(y),
        crate::scalar::in_range(z),
        forall|i: int, j: int|
            0 <= i < 4 && 0 <= j < 4 ==> #[trigger] m.rows[i][j]@ == translation_entry(
                x,
                y,
                z,
                i,
                j,
            ),
    ensures
        crate::matrices::det4_of(m) == SCALE,
{
    reveal(crate::matrices::minor4_of);
    crate::scalar::lemma_s_mul_zero(x);
    crate::scalar::lemma_s_mul_zero(y);
    crate::scalar::lemma_s_mul_zero(z);
    crate::scalar::lemma_s_mul_zero(SCALE as int);
    crate::scalar::lemma_s_mul_one(SCALE as int);
}

impl Matrix {
    /// A translation by `(x, y, z)`.
    pub fn translation(x: Scalar, y: Scalar, z: Scalar) -> (r: Self)
        ensures
            forall|i: int, j: int|
                0 <= i < 4 && 0 <= j < 4 ==> #[trigger] r.rows[i][j]@ == translation_entry(
                    x@,
                    y@,
                    z@,
                    i,
                    j,
                ),
    {
        let z0 = Scalar::zero();
        let o = Scalar::one();
        Self { rows: [[o, z0, z0, x], [z0, o, z0, y], [z0, z0, o, z], [z0, z0, z0, o]] }
    }

    /// A scaling by `(x, y, z)`.
    pub fn scaling(x: Scalar, y: Scalar, z: Scalar) -> (r: Self)
        ensures
            forall|i: int, j: int|
                0 <= i < 4 && 0 <= j < 4 ==> #[trigger] r.rows[i][j]@ == scaling_entry(
                    x@,
                    y@,
                    z@,
                    i,
                    j,
                ),
    {
        let z0 = Scalar::zero();
        let o = Scalar::one();
        Self { rows: [[x, z0, z0, z0], [z0, y, z0, z0], [z0, z0, z, z0], [z0, z0, z0, o]] }
    }

    /// A rotation about the x axis, given the cosine and sine of the
    /// angle (standard right-handed rotation).
    pub fn rotation_x(cos_theta: Scalar, sin_theta: Scalar) -> (r: Self)
        ensures
            forall|i: int, j: int|
                0 <= i < 4 && 0 <= j < 4 ==> #[trigger] r.rows[i][j]@ == rotation_x_entry(
                    cos_theta@,
                    sin_theta@,
                    i,
                    j,
                ),
    {
        let z0 = Scalar::zero();
        let o = Scalar::one();
        Self {
            rows: [
                [o, z0, z0, z0],
                [z0, cos_theta, sin_theta.neg(), z0],
                [z0, sin_theta, cos_theta, z0],
                [z0, z0, z0, o],
            ],
        }
    }

    /// A rotation about the y axis, given the cosine and sine of the
    /// angle.
    pub fn rotation_y(cos_theta: Scalar, sin_theta: Scalar) -> (r: Self)
        ensures
            forall|i: int, j: int|
                0 <= i < 4 && 0 <= j < 4 ==> #[trigger] r.rows[i][j]@ == rotation_y_entry(
                    cos_theta@,
                    sin_theta@,
                    i,
                    j,
                ),
    {
        let z0 = Scalar::zero();
        let o = Scalar::one();
        Self {
            rows: [
                [cos_theta, z0, sin_theta, z0],
                [z0, o, z0, z0],
                [sin_theta.neg(), z0, cos_theta, z0],
                [z0, z0, z0, o],
            ],
        }
    }

    /// A rotation about the z axis, given the cosine and sine of the
    /// angle.
    pub fn rotation_z(cos_theta: Scalar, sin_theta: Scalar) -> (r: Self)
        ensures
            forall|i: int, j: int|
                0 <= i < 4 && 0 <= j < 4 ==> #[trigger] r.rows[i][j]@ == rotation_z_entry(
                    cos_theta@,
                    sin_theta@,
                    i,
                    j,
                ),
    {
        let z0 = Scalar::zero();
        let o = Scalar::one();
        Self {
            rows: [
                [cos_theta, sin_theta.neg(), z0, z0],
                [sin_theta, cos_theta, z0, z0],
                [z0, z0, o, z0],
                [z0, z0, z0, o],
            ],
        }
    }

    /// A shear by the six coefficients.
    pub fn shearing(xy: Scalar, xz: Scalar, yx: Scalar, yz: Scalar, zx: Scalar, zy: Scalar) -> (r:
        Self)
        ensures
            forall|i: int, j: int|
                0 <= i < 4 && 0 <= j < 4 ==> #[trigger] r.rows[i][j]@ == shearing_entry(
                    xy@,
                    xz@,
                    yx@,
                    yz@,
                    zx@,
                    zy@,
                    i,
                    j,
                ),
    {
        let z0 = Scalar::zero();
        let o = Scalar::one();
        Self {
            rows: [[o, xy, xz, z0], [yx, o, yz, z0], [zx, zy, o, z0], [z0, z0, z0, o]],
        }
    }

    /// The camera orientation built from the forward, left and true-up
    /// basis vectors, composed with a translation moving `from` to the
    /// origin.
    pub fn view_transform(from: Point, to: Point, up: Vector) -> (r: Self)
        requires
            is_point(from),
            is_point(to),
            sp_mag(sp_sub(t4(to), t4(from))) != 0,
            sp_mag(t4(up)) != 0,
        ensures
            ({
                let f = vt_forward(t4(from), t4(to));
                let l = vt_left(t4(from), t4(to), t4(up));
                let u = vt_true_up(t4(from), t4(to), t4(up));
                &&& r.rows[0][0]@ == l.0
                &&& r.rows[0][1]@ == l.1
                &&& r.rows[0][2]@ == l.2
                &&& r.rows[0][3]@ == s_add(
                    s_add(s_mul(l.0, -from.x@), s_mul(l.1, -from.y@)),
                    s_mul(l.2, -from.z@),
                )
                &&& r.rows[1][0]@ == u.0
                &&& r.rows[1][1]@ == u.1
                &&& r.rows[1][2]@ == u.2
                &&& r.rows[1][3]@ == s_add(
                    s_add(s_mul(u.0, -from.x@), s_mul(u.1, -from.y@)),
                    s_mul(u.2, -from.z@),
                )
                &&& r.rows[2][0]@ == -f.0
                &&& r.rows[2][1]@ == -f.1
                &&& r.rows[2][2]@ == -f.2
                &&& r.rows[2][3]@ == s_add(
                    s_add(s_mul(-f.0, -from.x@), s_mul(-f.1, -from.y@)),
                    s_mul(-f.2, -from.z@),
                )
                &&& r.rows[3][0]@ == 0
                &&& r.rows[3][1]@ == 0
                &&& r.rows[3][2]@ == 0
                &&& r.rows[3][3]@ == SCALE as int
            }),
    {
        let forward = to.sub(from).normalize();
        let up_n = up.normalize();
        let left = forward.cross(up_n);
        let true_up = left.cross(forward);
        left.x.note_range();
        left.y.note_range();
        left.z.note_range();
        true_up.x.note_range();
        true_up.y.note_range();
        true_up.z.note_range();
        forward.x.note_range();
        forward.y.note_range();
        forward.z.note_range();
        let z0 = Scalar::zero();
        let o = Scalar::one();
        let orientation = Self {
            rows: [
                [left.x, left.y, left.z, z0],
                [true_up.x, true_up.y, true_up.z, z0],
                [forward.x.neg(), forward.y.neg(), forward.z.neg(), z0],
                [z0, z0, z0, o],
            ],
        };
        let moved = orientation.mul(&Self::translation(from.x.neg(), from.y.neg(), from.z.neg()));
        proof {
            crate::scalar::lemma_s_mul_one(left.x@);
            crate::scalar::lemma_s_mul_one(left.y@);
            crate::scalar::lemma_s_mul_one(left.z@);
            crate::scalar::lemma_s_mul_one(true_up.x@);
            crate::scalar::lemma_s_mul_one(true_up.y@);
            crate::scalar::lemma_s_mul_one(true_up.z@);
            crate::scalar::lemma_s_mul_one(-forward.x@);
            crate::scalar::lemma_s_mul_one(-forward.y@);
            crate::scalar::lemma_s_mul_one(-forward.z@);
            crate::scalar::lemma_s_mul_one(SCALE as int);
            crate::scalar::lemma_s_mul_zero(left.x@);
            crate::scalar::lemma_s_mul_zero(left.y@);
            crate::scalar::lemma_s_mul_zero(left.z@);
            crate::scalar::lemma_s_mul_zero(true_up.x@);
            crate::scalar::lemma_s_mul_zero(true_up.y@);
            crate::scalar::lemma_s_mul_zero(true_up.z@);
            crate::scalar::lemma_s_mul_zero(-forward.x@);
            crate::scalar::lemma_s_mul_zero(-forward.y@);
            crate::scalar::lemma_s_mul_zero(-forward.z@);
            crate::scalar::lemma_s_mul_zero(SCALE as int);
            crate::scalar::lemma_s_mul_zero(-from.x@);
            crate::scalar::lemma_s_mul_zero(-from.y@);
            crate::scalar::lemma_s_mul_zero(-from.z@);
        }
        moved
    }
}

} // verus!
