//! Vectors: coordinates whose `w` tag is zero, and the vector operations
//! dot, cross, magnitude, normalize and reflect.

use super::{
    feq, is_vector, sp_cross, sp_dot, sp_mag, sp_normalizable, sp_normalize, sp_normalize_safe,
    sp_reflect, t4, Coordinates, T4,
};
use crate::scalar::{
    iabs, is_isqrt, lemma_isqrt_exists, lemma_tdiv_close, s_add, s_div, s_mul, sat, sqrt_floor,
    tdiv, Scalar, SCALE,
};
use vstd::arithmetic::div_mod::{lemma_fundamental_div_mod, lemma_mod_bound};
use vstd::prelude::*;

verus! {

pub type Vector = Coordinates;

/// One computed square `s_mul(x, x)` is the exact Euclidean quotient of
/// the true square, held within range.
proof fn lemma_square_quotient(x: int)
    requires
        iabs(x) <= 70368744177664,
    ensures
        s_mul(x, x) == (x * x) / (SCALE as int),
        0 <= s_mul(x, x) <= 1152921504606846976,
        x * x == (SCALE as int) * s_mul(x, x) + (x * x) % (SCALE as int),
        0 <= (x * x) % (SCALE as int) < SCALE as int,
        x * x <= 4951760157141521099596496896int,
{
    let s = SCALE as int;
    assert(0 <= x * x <= 70368744177664 * 70368744177664) by (nonlinear_arith)
        requires
            iabs(x) <= 70368744177664,
    ;
    lemma_fundamental_div_mod(x * x, s);
    lemma_mod_bound(x * x, s);
    assert((x * x) / s <= 4951760157141521099596496896int / s) by {
        vstd::arithmetic::div_mod::lemma_div_is_ordered(
            x * x,
            4951760157141521099596496896int,
            s,
        );
    }
}

/// Normalizing a coordinate of at least a quarter unit's magnitude
/// yields a coordinate of unit magnitude, within the comparison
/// tolerance. Components are bounded so that the squaring step cannot
/// saturate; far smaller magnitudes cannot be scaled accurately on the
/// fixed-point grid (a coordinate near `(0.0001, 0, 0)` squares to
/// almost nothing, and its normalization misses unit length by more
/// than the tolerance).
pub proof fn lemma_normalize_unit_magnitude(a: T4)
    requires
        sp_normalizable(a),
    ensures
        feq(sp_mag(sp_normalize(a)), SCALE as int),
{
    let s = SCALE as int;
    let x = a.0;
    let y = a.1;
    let z = a.2;
    lemma_square_quotient(x);
    lemma_square_quotient(y);
    lemma_square_quotient(z);
    let qx = s_mul(x, x);
    let qy = s_mul(y, y);
    let qz = s_mul(z, z);
    let d = s_add(s_add(qx, qy), qz);
    assert(d == qx + qy + qz);
    let big_a = x * x + y * y + z * z;
    assert(s * d <= big_a < s * d + 3 * s);

    // the magnitude is the integer square root of the scaled dot
    let m = sp_mag(a);
    assert(m == sqrt_floor(d * s));
    lemma_isqrt_exists(d * s);
    assert(is_isqrt(d * s, m));
    assert(m >= s / 4);
    assert(m * m <= d * s < (m + 1) * (m + 1));
    assert(m < 140737488355328) by (nonlinear_arith)
        requires
            m * m <= d * s,
            0 <= m,
            d <= 3 * 1152921504606846976,
            s == 4294967296,
    ;
    assert(d * s <= big_a) by (nonlinear_arith)
        requires
            s * d <= big_a,
    ;
    assert(big_a < (m + 1) * (m + 1) + 3 * s);

    // each component is within a hair of the magnitude
    assert((m + 131072) * (m + 131072) > big_a) by (nonlinear_arith)
        requires
            big_a < (m + 1) * (m + 1) + 3 * s,
            m >= s / 4,
            s == 4294967296,
            m >= 0,
    ;
    lemma_component_close(x, y, z, m);
    lemma_component_close(y, x, z, m);
    lemma_component_close(z, x, y, m);

    // the scaled components are exact truncating quotients
    let nx = norm_component(x, m);
    let ny = norm_component(y, m);
    let nz = norm_component(z, m);
    lemma_scaled_component(x, m);
    lemma_scaled_component(y, m);
    lemma_scaled_component(z, m);
    assert(sp_normalize(a).0 == nx && sp_normalize(a).1 == ny && sp_normalize(a).2 == nz);

    let ex = m * nx - x * s;
    let ey = m * ny - y * s;
    let ez = m * nz - z * s;
    let big_n = nx * nx + ny * ny + nz * nz;

    // m^2 N = s^2 A + 2s(x ex + y ey + z ez) + (ex^2 + ey^2 + ez^2)
    lemma_expand_square(x, s, m, nx);
    lemma_expand_square(y, s, m, ny);
    lemma_expand_square(z, s, m, nz);
    assert(m * m * (nx * nx) + m * m * (ny * ny) + m * m * (nz * nz) == m * m * big_n)
        by (nonlinear_arith)
        requires
            big_n == nx * nx + ny * ny + nz * nz,
    ;
    assert((x * s) * (x * s) + (y * s) * (y * s) + (z * s) * (z * s) == s * s * big_a)
        by (nonlinear_arith)
        requires
            big_a == x * x + y * y + z * z,
    ;
    assert(2 * (x * s) * ex == 2 * s * (x * ex)) by (nonlinear_arith);
    assert(2 * (y * s) * ey == 2 * s * (y * ey)) by (nonlinear_arith);
    assert(2 * (z * s) * ez == 2 * s * (z * ez)) by (nonlinear_arith);
    assert(2 * s * (x * ex) + 2 * s * (y * ey) + 2 * s * (z * ez) == 2 * s * (x * ex + y * ey + z
        * ez)) by (nonlinear_arith);
    assert(m * m * big_n == s * s * big_a + 2 * s * (x * ex + y * ey + z * ez) + (ex * ex + ey
        * ey + ez * ez));

    // bound the error terms
    lemma_cross_bound(x, ex, m);
    lemma_cross_bound(y, ey, m);
    lemma_cross_bound(z, ez, m);
    assert(iabs(2 * s * (x * ex + y * ey + z * ez)) <= 6 * s * (m + 131072) * m)
        by (nonlinear_arith)
        requires
            iabs(x * ex) <= (m + 131072) * m,
            iabs(y * ey) <= (m + 131072) * m,
            iabs(z * ez) <= (m + 131072) * m,
            s > 0,
            m >= 0,
    ;
    assert(0 <= ex * ex + ey * ey + ez * ez <= 3 * m * m) by (nonlinear_arith)
        requires
            iabs(ex) < m,
            iabs(ey) < m,
            iabs(ez) < m,
            m > 0,
    ;

    // squeeze N around s^2
    assert(m * m * big_n >= s * s * big_a - 6 * s * (m + 131072) * m);
    assert(m * m * big_n <= s * s * big_a + 6 * s * (m + 131072) * m + 3 * m * m) by (nonlinear_arith)
        requires
            m * m * big_n == s * s * big_a + 2 * s * (x * ex + y * ey + z * ez) + (ex * ex + ey
                * ey + ez * ez),
            iabs(2 * s * (x * ex + y * ey + z * ez)) <= 6 * s * (m + 131072) * m,
            0 <= ex * ex + ey * ey + ez * ez <= 3 * m * m,
    ;
    assert(s <= 4 * m);
    assert(big_a >= m * m);
    assert(s * s * big_a >= s * s * (m * m)) by (nonlinear_arith)
        requires
            big_a >= m * m,
            s > 0,
    ;
    assert(m * m * (s * s - big_n) <= (6 * s + 3145728) * (m * m)) by (nonlinear_arith)
        requires
            m * m * big_n >= s * s * big_a - 6 * s * (m + 131072) * m,
            s * s * big_a >= s * s * (m * m),
            s <= 4 * m,
            s > 0,
            m > 0,
    ;
    assert(s * s - big_n <= 6 * s + 3145728) by (nonlinear_arith)
        requires
            m * m * (s * s - big_n) <= (6 * s + 3145728) * (m * m),
            m > 0,
    ;
    assert(s * s * big_a < s * s * (m * m) + (12 + 48) * s * (m * m)) by (nonlinear_arith)
        requires
            big_a < (m + 1) * (m + 1) + 3 * s,
            s <= 4 * m,
            s > 0,
            m >= s / 4,
            m > 0,
            s == 4294967296,
    ;
    assert(m * m * (big_n - s * s) <= (66 * s + 3145731) * (m * m)) by (nonlinear_arith)
        requires
            m * m * big_n <= s * s * big_a + 6 * s * (m + 131072) * m + 3 * m * m,
            s * s * big_a < s * s * (m * m) + 60 * s * (m * m),
            s <= 4 * m,
            s > 0,
            m > 0,
    ;
    assert(big_n - s * s <= 66 * s + 3145731) by (nonlinear_arith)
        requires
            m * m * (big_n - s * s) <= (66 * s + 3145731) * (m * m),
            m > 0,
    ;

    // the computed squared magnitude of the result follows N closely
    lemma_result_square(nx, s);
    lemma_result_square(ny, s);
    lemma_result_square(nz, s);
    let dp = s_add(s_add(s_mul(nx, nx), s_mul(ny, ny)), s_mul(nz, nz));
    assert(dp == s_mul(nx, nx) + s_mul(ny, ny) + s_mul(nz, nz));
    assert(s * dp <= big_n < s * dp + 3 * s);
    assert(s * s - 70 * s <= s * dp <= s * s + 67 * s);

    // and its square root lands within the tolerance of one
    let mp = sqrt_floor(dp * s);
    assert(sp_mag(sp_normalize(a)) == mp);
    assert((s * s - 70 * s) * s <= dp * s * s <= (s * s + 67 * s) * s) by (nonlinear_arith)
        requires
            s * s - 70 * s <= s * dp <= s * s + 67 * s,
            s > 0,
    ;
    assert(dp >= 0) by (nonlinear_arith)
        requires
            s * dp >= s * s - 70 * s,
            s == 4294967296,
    ;
    assert(dp * s >= 0) by (nonlinear_arith)
        requires
            dp >= 0,
            s > 0,
    ;
    lemma_isqrt_exists(dp * s);
    assert(is_isqrt(dp * s, mp));
    assert((s - 36) * (s - 36) <= dp * s) by (nonlinear_arith)
        requires
            dp * s * s >= (s * s - 70 * s) * s,
            s == 4294967296,
    ;
    assert(dp * s < (s + 35) * (s + 35)) by (nonlinear_arith)
        requires
            dp * s * s <= (s * s + 67 * s) * s,
            s == 4294967296,
    ;
    assert(s - 36 <= mp <= s + 35) by (nonlinear_arith)
        requires
            is_isqrt(dp * s, mp),
            (s - 36) * (s - 36) <= dp * s,
            dp * s < (s + 35) * (s + 35),
            s == 4294967296,
    ;
    assert(feq(mp, s));
}

/// The truncating quotient behind one normalized component.
pub open spec fn norm_component(x: int, m: int) -> int {
    tdiv(x * SCALE, m)
}

/// A component's square cannot reach past the whole magnitude.
proof fn lemma_component_close(x: int, y: int, z: int, m: int)
    requires
        (m + 131072) * (m + 131072) > x * x + y * y + z * z,
        m >= 0,
    ensures
        iabs(x) < m + 131072,
{
    assert(iabs(x) < m + 131072) by (nonlinear_arith)
        requires
            (m + 131072) * (m + 131072) > x * x + y * y + z * z,
            m >= 0,
    ;
}

/// A normalized component neither saturates nor strays far: it is the
/// exact truncating quotient, bounded a little above one unit.
proof fn lemma_scaled_component(x: int, m: int)
    requires
        iabs(x) < m + 131072,
        m >= SCALE as int / 4,
    ensures
        s_div(x, m) == norm_component(x, m),
        iabs(norm_component(x, m)) < SCALE + 524288,
        iabs(m * norm_component(x, m) - x * SCALE) < m,
{
    let s = SCALE as int;
    let q = tdiv(x * s, m);
    lemma_tdiv_close(x * s, m);
    assert(iabs(x * s) < (m + 131072) * s) by (nonlinear_arith)
        requires
            iabs(x) < m + 131072,
            s > 0,
    ;
    let p = iabs(x * s);
    lemma_fundamental_div_mod(p, m);
    lemma_mod_bound(p, m);
    vstd::arithmetic::div_mod::lemma_div_pos_is_pos(p, m);
    assert(iabs(q) == p / m);
    assert(m * iabs(q) <= p);
    assert(iabs(q) < s + 524288) by (nonlinear_arith)
        requires
            m * iabs(q) <= iabs(x * s),
            iabs(x * s) < (m + 131072) * s,
            s <= 4 * m,
            m > 0,
            s == 4294967296,
    ;
    assert(s_div(x, m) == sat(q));
}

/// Multiplying out one component's error term.
proof fn lemma_expand_square(x: int, s: int, m: int, nx: int)
    ensures
        m * m * (nx * nx) == (x * s) * (x * s) + 2 * (x * s) * (m * nx - x * s) + (m * nx - x
            * s) * (m * nx - x * s),
{
    assert(m * m * (nx * nx) == (m * nx) * (m * nx)) by (nonlinear_arith);
    assert((m * nx) * (m * nx) == (x * s + (m * nx - x * s)) * (x * s + (m * nx - x * s)));
    assert((x * s + (m * nx - x * s)) * (x * s + (m * nx - x * s)) == (x * s) * (x * s) + 2 * (x
        * s) * (m * nx - x * s) + (m * nx - x * s) * (m * nx - x * s)) by (nonlinear_arith);
}

/// One cross term of the error expansion stays small.
proof fn lemma_cross_bound(x: int, e: int, m: int)
    requires
        iabs(x) < m + 131072,
        iabs(e) < m,
        m > 0,
    ensures
        iabs(x * e) <= (m + 131072) * m,
{
    assert(iabs(x * e) <= (m + 131072) * m) by (nonlinear_arith)
        requires
            iabs(x) < m + 131072,
            iabs(e) < m,
            m > 0,
    ;
}

/// The computed square of a normalized component is its exact
/// Euclidean quotient.
proof fn lemma_result_square(nx: int, s: int)
    requires
        s == SCALE as int,
        iabs(nx) < SCALE + 524288,
    ensures
        s_mul(nx, nx) == (nx * nx) / s,
        0 <= s_mul(nx, nx) <= 4296015936,
        nx * nx == s * s_mul(nx, nx) + (nx * nx) % s,
        0 <= (nx * nx) % s < s,
{
    assert(0 <= nx * nx < (SCALE + 524288) * (SCALE + 524288)) by (nonlinear_arith)
        requires
            iabs(nx) < SCALE + 524288,
    ;
    assert((SCALE as int + 524288) * (SCALE as int + 524288) == (SCALE as int + 1048640) * (
    SCALE as int)) by (nonlinear_arith);
    lemma_fundamental_div_mod(nx * nx, s);
    lemma_mod_bound(nx * nx, s);
    vstd::arithmetic::div_mod::lemma_div_pos_is_pos(nx * nx, s);
    assert(nx * nx < s * (SCALE as int + 1048640));
    vstd::arithmetic::div_mod::lemma_multiply_divide_lt(nx * nx, s, SCALE as int + 1048640);
    assert((nx * nx) / s < SCALE as int + 1048640);
}

impl Vector {
    /// A vector with the given components.
    pub fn new_vector(x: Scalar, y: Scalar, z: Scalar) -> (r: Self)
        ensures
            r.x == x,
            r.y == y,
            r.z == z,
            r.w@ == 0,
    {
        Coordinates { x, y, z, w: Scalar::zero() }
    }

    /// Euclidean length of the `x`, `y`, `z` components.
    pub fn magnitude(self) -> (r: Scalar)
        ensures
            r@ == sp_mag(t4(self)),
            r@ >= 0,
    {
        let xx = self.x.mul(self.x);
        let yy = self.y.mul(self.y);
        let zz = self.z.mul(self.z);
        let sum = xx.add(yy).add(zz);
        proof {
            crate::scalar::lemma_square_nonneg(self.x@);
            crate::scalar::lemma_square_nonneg(self.y@);
            crate::scalar::lemma_square_nonneg(self.z@);
        }
        sum.sqrt()
    }

    /// The vector scaled down to unit length; where the grid allows it,
    /// the result's magnitude is one within the comparison tolerance.
    pub fn normalize(self) -> (r: Self)
        requires
            sp_mag(t4(self)) != 0,
        ensures
            t4(r) == sp_normalize(t4(self)),
            sp_normalizable(t4(self)) ==> feq(sp_mag(t4(r)), SCALE as int),
    {
        proof {
            if sp_normalizable(t4(self)) {
                lemma_normalize_unit_magnitude(t4(self));
            }
        }
        let m = self.magnitude();
        self.div(m)
    }

    /// The vector scaled down to unit length, or the zero vector when
    /// the magnitude is zero: a degenerate direction the renderer treats
    /// as pointing nowhere. Where the grid allows it, the result's
    /// magnitude is one within the comparison tolerance.
    pub fn normalize_or_zero(self) -> (r: Self)
        ensures
            t4(r) == sp_normalize_safe(t4(self)),
            sp_normalizable(t4(self)) ==> feq(sp_mag(t4(r)), SCALE as int),
    {
        proof {
            if sp_normalizable(t4(self)) {
                lemma_normalize_unit_magnitude(t4(self));
            }
        }
        let m = self.magnitude();
        if m.is_zero() {
            let z = Scalar::zero();
            Vector::new_vector(z, z, z)
        } else {
            self.div(m)
        }
    }

    /// Dot product of the `x`, `y`, `z` components.
    pub fn dot(self, vec: Self) -> (r: Scalar)
        ensures
            r@ == sp_dot(t4(self), t4(vec)),
    {
        self.x.mul(vec.x).add(self.y.mul(vec.y).add(self.z.mul(vec.z)))
    }

    /// Cross product; the result is a vector.
    pub fn cross(self, vec: Self) -> (r: Self)
        ensures
            t4(r) == sp_cross(t4(self), t4(vec)),
    {
        Coordinates {
            x: self.y.mul(vec.z).sub(self.z.mul(vec.y)),
            y: self.z.mul(vec.x).sub(self.x.mul(vec.z)),
            z: self.x.mul(vec.y).sub(self.y.mul(vec.x)),
            w: Scalar::zero(),
        }
    }

    /// This vector mirrored about the normal `vec`.
    pub fn reflect(self, vec: Self) -> (r: Self)
        requires
            is_vector(self),
            is_vector(vec),
        ensures
            t4(r) == sp_reflect(t4(self), t4(vec)),
    {
        let d = self.dot(vec);
        let two = Scalar::one().add(Scalar::one());
        self.sub(vec.mul(two).mul(d))
    }
}

} // verus!
