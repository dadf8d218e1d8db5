//! Homogeneous 4-component coordinates.
//!
//! The `w` component tags a value: `w == 1` is a point, `w == 0` a vector.
//! Adding two points, or subtracting a point from a vector, is a caller
//! error and is ruled out by precondition. The spec model of a coordinate
//! is the 4-tuple of stored integers, [`t4`], and every operation's
//! contract names the resulting tuple exactly.

use crate::scalar::{iabs, s_add, s_div, s_mul, s_sqrt, s_sub, Scalar, EPSILON_RAW, SCALE};
use vstd::prelude::*;

verus! {

/// The spec model of a coordinate: its four stored integers.
pub type T4 = (int, int, int, int);

#[derive(Clone, Copy, Debug, PartialEq, Eq, Structural)]
pub struct Coordinates {
    pub x: Scalar,
    pub y: Scalar,
    pub z: Scalar,
    pub w: Scalar,
}

/// The stored integers of a coordinate.
pub open spec fn t4(c: Coordinates) -> T4 {
    (c.x@, c.y@, c.z@, c.w@)
}

/// A point carries `w == 1`.
pub open spec fn is_point(c: Coordinates) -> bool {
    c.w@ == SCALE
}

/// A vector carries `w == 0`.
pub open spec fn is_vector(c: Coordinates) -> bool {
    c.w@ == 0
}

/// Componentwise sum, `w` included.
pub open spec fn sp_add(a: T4, b: T4) -> T4 {
    (s_add(a.0, b.0), s_add(a.1, b.1), s_add(a.2, b.2), s_add(a.3, b.3))
}

/// Componentwise difference, `w` included.
pub open spec fn sp_sub(a: T4, b: T4) -> T4 {
    (s_sub(a.0, b.0), s_sub(a.1, b.1), s_sub(a.2, b.2), s_sub(a.3, b.3))
}

/// Negation of `x`, `y`, `z`; the `w` tag is kept.
pub open spec fn sp_neg(a: T4) -> T4 {
    (-a.0, -a.1, -a.2, a.3)
}

/// The same scalar added to `x`, `y` and `z`; the `w` tag is kept.
pub open spec fn sp_add_scalar(a: T4, k: int) -> T4 {
    (s_add(a.0, k), s_add(a.1, k), s_add(a.2, k), a.3)
}

/// `x`, `y`, `z` scaled by `k`; the `w` tag is kept.
pub open spec fn sp_scale(a: T4, k: int) -> T4 {
    (s_mul(a.0, k), s_mul(a.1, k), s_mul(a.2, k), a.3)
}

/// `x`, `y`, `z` divided by `k`; the `w` tag is kept.
pub open spec fn sp_scale_div(a: T4, k: int) -> T4 {
    (s_div(a.0, k), s_div(a.1, k), s_div(a.2, k), a.3)
}

/// Dot product of the `x`, `y`, `z` components.
pub open spec fn sp_dot(a: T4, b: T4) -> int {
    s_add(s_mul(a.0, b.0), s_add(s_mul(a.1, b.1), s_mul(a.2, b.2)))
}

/// Euclidean length of the `x`, `y`, `z` components.
pub open spec fn sp_mag(a: T4) -> int {
    s_sqrt(s_add(s_add(s_mul(a.0, a.0), s_mul(a.1, a.1)), s_mul(a.2, a.2)))
}

/// The coordinate scaled down to unit length.
pub open spec fn sp_normalize(a: T4) -> T4 {
    sp_scale_div(a, sp_mag(a))
}

/// Unit length where possible, the zero vector where the magnitude is
/// zero.
pub open spec fn sp_normalize_safe(a: T4) -> T4 {
    if sp_mag(a) == 0 {
        (0int, 0int, 0int, 0int)
    } else {
        sp_normalize(a)
    }
}

/// The fixed-point grid can scale this coordinate to unit length
/// accurately: no component can saturate the squaring step, and the
/// magnitude is at least a quarter unit. Below these machine limits the
/// grid is too coarse for the normalization to land near unit length.
pub open spec fn sp_normalizable(a: T4) -> bool {
    &&& iabs(a.0) <= 70368744177664
    &&& iabs(a.1) <= 70368744177664
    &&& iabs(a.2) <= 70368744177664
    &&& sp_mag(a) >= SCALE as int / 4
}

/// Cross product of two vectors.
pub open spec fn sp_cross(a: T4, b: T4) -> T4 {
    (
        s_sub(s_mul(a.1, b.2), s_mul(a.2, b.1)),
        s_sub(s_mul(a.2, b.0), s_mul(a.0, b.2)),
        s_sub(s_mul(a.0, b.1), s_mul(a.1, b.0)),
        0,
    )
}

/// `v` mirrored about the normal `n`: `v - n * 2 * dot(v, n)`.
pub open spec fn sp_reflect(v: T4, n: T4) -> T4 {
    sp_sub(v, sp_scale(sp_scale(n, 2 * SCALE), sp_dot(v, n)))
}

/// Two stored integers within the comparison tolerance of one another.
pub open spec fn feq(a: int, b: int) -> bool {
    -(EPSILON_RAW as int) < a - b < EPSILON_RAW as int
}

/// All four components within the comparison tolerance.
pub open spec fn t4_feq(a: T4, b: T4) -> bool {
    feq(a.0, b.0) && feq(a.1, b.1) && feq(a.2, b.2) && feq(a.3, b.3)
}

/// The point/vector algebra of the `w` tag: a point plus a vector is a
/// point, a vector plus a vector is a vector, and a point minus a point
/// is a vector. Adding two points has no result at all: `add` excludes
/// that combination by precondition.
pub proof fn lemma_point_vector_algebra(
    p: Coordinates,
    q: Coordinates,
    v: Coordinates,
    w: Coordinates,
)
    requires
        is_point(p),
        is_point(q),
        is_vector(v),
        is_vector(w),
    ensures
        sp_add(t4(p), t4(v)).3 == SCALE as int,
        sp_add(t4(v), t4(w)).3 == 0,
        sp_sub(t4(p), t4(q)).3 == 0,
{
}

impl Coordinates {
    /// Componentwise sum. Adding two points (a combined `w` above one)
    /// is an invalid combination — a hard precondition failure, not a
    /// recoverable error — and is excluded up front; a caller outside
    /// the verifier must respect the tags itself, since the operation
    /// carries no run-time check.
    pub fn add(self, rhs: Self) -> (r: Self)
        requires
            self.w@ + rhs.w@ <= SCALE,
        ensures
            t4(r) == sp_add(t4(self), t4(rhs)),
    {
        Coordinates {
            x: self.x.add(rhs.x),
            y: self.y.add(rhs.y),
            z: self.z.add(rhs.z),
            w: self.w.add(rhs.w),
        }
    }

    /// The same scalar added to each of `x`, `y`, `z`.
    pub fn add_scalar(self, rhs: Scalar) -> (r: Self)
        ensures
            t4(r) == sp_add_scalar(t4(self), rhs@),
    {
        Coordinates {
            x: self.x.add(rhs),
            y: self.y.add(rhs),
            z: self.z.add(rhs),
            w: self.w,
        }
    }

    /// Componentwise difference. Subtracting a point from a vector (a
    /// combined `w` below zero) is an invalid combination and is excluded
    /// up front.
    pub fn sub(self, rhs: Self) -> (r: Self)
        requires
            self.w@ >= rhs.w@,
        ensures
            t4(r) == sp_sub(t4(self), t4(rhs)),
    {
        Coordinates {
            x: self.x.sub(rhs.x),
            y: self.y.sub(rhs.y),
            z: self.z.sub(rhs.z),
            w: self.w.sub(rhs.w),
        }
    }

    /// Negation of `x`, `y`, `z`; the `w` tag is kept.
    pub fn neg(self) -> (r: Self)
        ensures
            t4(r) == sp_neg(t4(self)),
    {
        Coordinates { x: self.x.neg(), y: self.y.neg(), z: self.z.neg(), w: self.w }
    }

    /// `x`, `y`, `z` scaled by `rhs`; the `w` tag is kept.
    pub fn mul(self, rhs: Scalar) -> (r: Self)
        ensures
            t4(r) == sp_scale(t4(self), rhs@),
    {
        Coordinates {
            x: self.x.mul(rhs),
            y: self.y.mul(rhs),
            z: self.z.mul(rhs),
            w: self.w,
        }
    }

    /// `x`, `y`, `z` divided by `rhs`; the `w` tag is kept.
    pub fn div(self, rhs: Scalar) -> (r: Self)
        requires
            rhs@ != 0,
        ensures
            t4(r) == sp_scale_div(t4(self), rhs@),
    {
        Coordinates {
            x: self.x.div(rhs),
            y: self.y.div(rhs),
            z: self.z.div(rhs),
            w: self.w,
        }
    }

    /// All components within the comparison tolerance of `rhs`.
    pub fn equal(self, rhs: Self) -> (r: bool)
        ensures
            r == t4_feq(t4(self), t4(rhs)),
    {
        crate::utils::float_equal(self.x, rhs.x) && crate::utils::float_equal(self.y, rhs.y)
            && crate::utils::float_equal(self.z, rhs.z) && crate::utils::float_equal(
            self.w,
            rhs.w,
        )
    }
}

} // verus!
