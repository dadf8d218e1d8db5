//! RGB colors with fixed-point channels, unclamped: lighting sums may
//! exceed the displayable range, and quantization is left to the caller.

use crate::base_types::feq;
use crate::scalar::{s_add, s_div, s_mul, s_sub, Scalar};
use vstd::prelude::*;

verus! {

/// The spec model of a color: its three stored channel integers.
pub type C3 = (int, int, int);

#[derive(Clone, Copy, Debug, PartialEq, Eq, Structural)]
pub struct Color(pub Scalar, pub Scalar, pub Scalar);

/// The stored integers of a color.
pub open spec fn c3(c: Color) -> C3 {
    (c.0@, c.1@, c.2@)
}

/// Componentwise sum.
pub open spec fn cp_add(a: C3, b: C3) -> C3 {
    (s_add(a.0, b.0), s_add(a.1, b.1), s_add(a.2, b.2))
}

/// Componentwise difference.
pub open spec fn cp_sub(a: C3, b: C3) -> C3 {
    (s_sub(a.0, b.0), s_sub(a.1, b.1), s_sub(a.2, b.2))
}

/// Componentwise (Hadamard) product.
pub open spec fn cp_mul(a: C3, b: C3) -> C3 {
    (s_mul(a.0, b.0), s_mul(a.1, b.1), s_mul(a.2, b.2))
}

/// Every channel scaled by `k`.
pub open spec fn cp_scale(a: C3, k: int) -> C3 {
    (s_mul(a.0, k), s_mul(a.1, k), s_mul(a.2, k))
}

/// Every channel divided by `k`.
pub open spec fn cp_scale_div(a: C3, k: int) -> C3 {
    (s_div(a.0, k), s_div(a.1, k), s_div(a.2, k))
}

/// All three channels within the comparison tolerance.
pub open spec fn c3_feq(a: C3, b: C3) -> bool {
    feq(a.0, b.0) && feq(a.1, b.1) && feq(a.2, b.2)
}

impl Color {
    pub fn new(red: Scalar, green: Scalar, blue: Scalar) -> (r: Self)
        ensures
            c3(r) == (red@, green@, blue@),
    {
        Color(red, green, blue)
    }

    /// The black color, zero in every channel.
    pub fn black() -> (r: Self)
        ensures
            c3(r) == (0int, 0int, 0int),
    {
        Color(Scalar::zero(), Scalar::zero(), Scalar::zero())
    }

    /// Componentwise sum.
    pub fn add(self, rhs: Self) -> (r: Self)
        ensures
            c3(r) == cp_add(c3(self), c3(rhs)),
    {
        Color(self.0.add(rhs.0), self.1.add(rhs.1), self.2.add(rhs.2))
    }

    /// Componentwise difference.
    pub fn sub(self, rhs: Self) -> (r: Self)
        ensures
            c3(r) == cp_sub(c3(self), c3(rhs)),
    {
        Color(self.0.sub(rhs.0), self.1.sub(rhs.1), self.2.sub(rhs.2))
    }

    /// Componentwise product, combining a surface color with a light.
    pub fn mul(self, rhs: Self) -> (r: Self)
        ensures
            c3(r) == cp_mul(c3(self), c3(rhs)),
    {
        Color(self.0.mul(rhs.0), self.1.mul(rhs.1), self.2.mul(rhs.2))
    }

    /// Every channel scaled by `rhs`.
    pub fn mul_scalar(self, rhs: Scalar) -> (r: Self)
        ensures
            c3(r) == cp_scale(c3(self), rhs@),
    {
        Color(self.0.mul(rhs), self.1.mul(rhs), self.2.mul(rhs))
    }

    /// Every channel divided by `rhs`.
    pub fn div_scalar(self, rhs: Scalar) -> (r: Self)
        requires
            rhs@ != 0,
        ensures
            c3(r) == cp_scale_div(c3(self), rhs@),
    {
        Color(self.0.div(rhs), self.1.div(rhs), self.2.div(rhs))
    }

    /// All channels within the comparison tolerance of `rhs`.
    pub fn equal(self, rhs: Self) -> (r: bool)
        ensures
            r == c3_feq(c3(self), c3(rhs)),
    {
        crate::utils::float_equal(self.0, rhs.0) && crate::utils::float_equal(self.1, rhs.1)
            && crate::utils::float_equal(self.2, rhs.2)
    }
}

} // verus!
