//! Fixed-point scalars.
//!
//! Every coordinate, matrix entry and color channel of this crate is a
//! [`Scalar`]: a real number carried as `raw / SCALE` for an integer `raw`
//! with `SCALE = 2^32`. All operations saturate at `VMAX` (about `2^30` in
//! real terms), so they are total and every `Scalar` stays in range; the
//! contracts state the stored integer of each result exactly, through the
//! spec functions [`s_add`], [`s_mul`], [`s_div`], [`s_sqrt`] and friends.

use vstd::prelude::*;

verus! {

/// One whole unit: the stored integer of the real number `1`.
pub const SCALE: i128 = 4294967296;

/// Largest stored magnitude a `Scalar` may hold (`2^62`).
pub const VMAX: i128 = 4611686018427387904;

/// Stored form of the comparison tolerance `1e-5` used by `float_equal`.
pub const EPSILON_RAW: i128 = 42949;

/// Magnitude of an integer.
pub open spec fn iabs(a: int) -> int {
    if a >= 0 {
        a
    } else {
        -a
    }
}

/// Quotient of `a` by `b`, rounded toward zero, as the executable division
/// of this crate computes it.
pub open spec fn tdiv(a: int, b: int) -> int {
    if (a >= 0) == (b >= 0) {
        iabs(a) / iabs(b)
    } else {
        -(iabs(a) / iabs(b))
    }
}

/// Clamp a stored integer to the representable range.
pub open spec fn sat(v: int) -> int {
    if v > VMAX {
        VMAX as int
    } else if v < -(VMAX as int) {
        -(VMAX as int)
    } else {
        v
    }
}

/// Whether a stored integer is representable.
pub open spec fn in_range(v: int) -> bool {
    -(VMAX as int) <= v <= VMAX as int
}

/// Stored sum.
pub open spec fn s_add(a: int, b: int) -> int {
    sat(a + b)
}

/// Stored difference.
pub open spec fn s_sub(a: int, b: int) -> int {
    sat(a - b)
}

/// Stored product: the double-width product scaled back down, rounded
/// toward zero.
pub open spec fn s_mul(a: int, b: int) -> int {
    sat(tdiv(a * b, SCALE as int))
}

/// Stored quotient: the dividend scaled up, rounded toward zero.
pub open spec fn s_div(a: int, b: int) -> int {
    sat(tdiv(a * SCALE, b))
}

/// `r` is the integer square root of `x`.
pub open spec fn is_isqrt(x: int, r: int) -> bool {
    &&& r >= 0
    &&& r * r <= x
    &&& x < (r + 1) * (r + 1)
}

/// The integer square root of `x` (meaningful for `x >= 0`).
pub open spec fn sqrt_floor(x: int) -> int {
    choose|r: int| is_isqrt(x, r)
}

/// Stored square root: `sqrt(raw / SCALE)` is `sqrt(raw * SCALE) / SCALE`.
pub open spec fn s_sqrt(a: int) -> int {
    sqrt_floor(a * SCALE)
}

/// The whole number below `a`: `floor(a / SCALE)` as a plain integer.
pub open spec fn floor_int(a: int) -> int {
    a / (SCALE as int)
}

/// Stored value of `floor` of a scalar.
pub open spec fn s_floor(a: int) -> int {
    SCALE * floor_int(a)
}

/// There is at most one integer square root.
pub proof fn lemma_isqrt_unique(x: int, a: int, b: int)
    requires
        is_isqrt(x, a),
        is_isqrt(x, b),
    ensures
        a == b,
{
    if a < b {
        assert((a + 1) * (a + 1) <= b * b) by (nonlinear_arith)
            requires
                0 <= a,
                a + 1 <= b,
        ;
    }
    if b < a {
        assert((b + 1) * (b + 1) <= a * a) by (nonlinear_arith)
            requires
                0 <= b,
                b + 1 <= a,
        ;
    }
}

/// A fixed-point real number: the value `raw / SCALE`.
#[derive(Clone, Copy, Debug, PartialEq, Eq, Structural)]
pub struct Scalar {
    raw: i128,
}

impl View for Scalar {
    type V = int;

    closed spec fn view(&self) -> int {
        self.raw as int
    }
}

impl Scalar {
    #[verifier::type_invariant]
    pub closed spec fn inv(self) -> bool {
        in_range(self.raw as int)
    }

    /// Every scalar's stored integer lies in the representable range.
    pub fn note_range(self)
        ensures
            in_range(self@),
    {
        proof {
            use_type_invariant(self);
        }
    }

    /// The real number zero.
    pub fn zero() -> (r: Scalar)
        ensures
            r@ == 0,
    {
        Scalar { raw: 0 }
    }

    /// The real number one.
    pub fn one() -> (r: Scalar)
        ensures
            r@ == SCALE,
    {
        Scalar { raw: SCALE }
    }

    /// Build a scalar directly from its stored integer, clamped to range.
    pub fn from_bits(raw: i128) -> (r: Scalar)
        ensures
            r@ == sat(raw as int),
    {
        Scalar { raw: sat_raw(raw) }
    }

    /// The stored integer of this scalar.
    pub fn bits(self) -> (r: i128)
        ensures
            r as int == self@,
    {
        self.raw
    }

    /// The whole number `v`, clamped to range.
    pub fn from_int(v: i64) -> (r: Scalar)
        ensures
            r@ == sat(v * SCALE),
    {
        let wide: i128 = (v as i128) * SCALE;
        Scalar { raw: sat_raw(wide) }
    }

    /// The ratio `n / d`, rounded toward zero and clamped to range.
    pub fn from_ratio(n: i64, d: i64) -> (r: Scalar)
        requires
            d != 0,
        ensures
            r@ == sat(tdiv(n * SCALE, d as int)),
    {
        let wide: i128 = (n as i128) * SCALE;
        let q = div_raw(wide, d as i128);
        Scalar { raw: sat_raw(q) }
    }

    /// The whole number `v`, clamped to range.
    pub fn from_usize(v: usize) -> (r: Scalar)
        ensures
            r@ == sat(v * SCALE),
    {
        let wide: i128 = (v as i128) * SCALE;
        Scalar { raw: sat_raw(wide) }
    }

    /// Saturating sum.
    pub fn add(self, rhs: Scalar) -> (r: Scalar)
        ensures
            r@ == s_add(self@, rhs@),
    {
        proof {
            use_type_invariant(self);
            use_type_invariant(rhs);
        }
        Scalar { raw: sat_raw(self.raw + rhs.raw) }
    }

    /// Saturating difference.
    pub fn sub(self, rhs: Scalar) -> (r: Scalar)
        ensures
            r@ == s_sub(self@, rhs@),
    {
        proof {
            use_type_invariant(self);
            use_type_invariant(rhs);
        }
        Scalar { raw: sat_raw(self.raw - rhs.raw) }
    }

    /// Negation (always exact).
    pub fn neg(self) -> (r: Scalar)
        ensures
            r@ == -self@,
    {
        proof {
            use_type_invariant(self);
        }
        Scalar { raw: -self.raw }
    }

    /// Saturating product, rounded toward zero.
    pub fn mul(self, rhs: Scalar) -> (r: Scalar)
        ensures
            r@ == s_mul(self@, rhs@),
    {
        proof {
            use_type_invariant(self);
            use_type_invariant(rhs);
            assert(iabs(self.raw as int * rhs.raw as int) <= VMAX as int * VMAX as int)
                by (nonlinear_arith)
                requires
                    in_range(self.raw as int),
                    in_range(rhs.raw as int),
            ;
        }
        let p: i128 = self.raw * rhs.raw;
        let q = div_raw(p, SCALE);
        Scalar { raw: sat_raw(q) }
    }

    /// Saturating quotient, rounded toward zero.
    pub fn div(self, rhs: Scalar) -> (r: Scalar)
        requires
            rhs@ != 0,
        ensures
            r@ == s_div(self@, rhs@),
    {
        proof {
            use_type_invariant(self);
            use_type_invariant(rhs);
        }
        let wide: i128 = self.raw * SCALE;
        let q = div_raw(wide, rhs.raw);
        Scalar { raw: sat_raw(q) }
    }

    /// Square root, rounded down to the representable grid.
    pub fn sqrt(self) -> (r: Scalar)
        requires
            self@ >= 0,
        ensures
            r@ == s_sqrt(self@),
            r@ >= 0,
    {
        proof {
            use_type_invariant(self);
        }
        let wide: u128 = (self.raw as u128) * (SCALE as u128);
        let root = isqrt_u128(wide);
        proof {
            assert(wide as int == self.raw as int * SCALE as int) by (nonlinear_arith)
                requires
                    0 <= self.raw as int && self.raw as int <= VMAX as int,
                    wide as int == (self.raw as u128) as int * (SCALE as u128) as int,
                    (self.raw as u128) as int == self.raw as int,
                    (SCALE as u128) as int == SCALE as int,
            ;
            // root * root <= wide <= VMAX * SCALE < VMAX * VMAX, so root < VMAX
            assert((root as int) <= VMAX as int) by (nonlinear_arith)
                requires
                    is_isqrt(wide as int, root as int),
                    (wide as int) <= VMAX as int * SCALE as int,
                    SCALE < VMAX,
            ;
            lemma_isqrt_unique(wide as int, root as int, sqrt_floor(wide as int));
        }
        Scalar { raw: root as i128 }
    }

    /// Magnitude.
    pub fn abs(self) -> (r: Scalar)
        ensures
            r@ == iabs(self@),
    {
        proof {
            use_type_invariant(self);
        }
        if self.raw < 0 {
            Scalar { raw: -self.raw }
        } else {
            self
        }
    }

    /// Largest whole number at or below this scalar.
    pub fn floor(self) -> (r: Scalar)
        ensures
            r@ == s_floor(self@),
    {
        proof {
            use_type_invariant(self);
        }
        let f = floor_div_scale(self.raw);
        Scalar { raw: f * SCALE }
    }

    /// Whether the whole number below this scalar is even.
    pub fn floor_even(self) -> (r: bool)
        ensures
            r == (floor_int(self@) % 2 == 0),
    {
        proof {
            use_type_invariant(self);
        }
        let f = floor_div_scale(self.raw);
        let m: u128 = if f < 0 {
            (-f) as u128
        } else {
            f as u128
        };
        proof {
            lemma_parity_abs(f as int);
        }
        m % 2 == 0
    }

    /// The largest whole number at or below this scalar, as a plain
    /// integer.
    pub fn whole(self) -> (f: i128)
        ensures
            f as int == floor_int(self@),
            -1073741824 <= f <= 1073741824,
    {
        proof {
            use_type_invariant(self);
        }
        floor_div_scale(self.raw)
    }

    /// Fractional part: this scalar minus its floor (always in `[0, 1)`).
    pub fn fract(self) -> (r: Scalar)
        ensures
            r@ == self@ - s_floor(self@),
            0 <= r@ < SCALE,
    {
        proof {
            use_type_invariant(self);
        }
        let f = self.floor();
        proof {
            vstd::arithmetic::div_mod::lemma_fundamental_div_mod(self.raw as int, SCALE as int);
            vstd::arithmetic::div_mod::lemma_mod_bound(self.raw as int, SCALE as int);
        }
        Scalar { raw: self.raw - f.raw }
    }

    /// The scalar raised to the whole power `n` (one for `n == 0`).
    pub fn pow(self, n: u32) -> (r: Scalar)
        ensures
            r@ == s_pow(self@, n as nat),
    {
        let mut result = Scalar::one();
        let mut i: u32 = 0;
        while i < n
            invariant
                i <= n,
                result@ == s_pow(self@, i as nat),
            decreases n - i,
        {
            result = result.mul(self);
            i = i + 1;
        }
        result
    }

    /// Strict order on the real values.
    pub fn lt(self, rhs: Scalar) -> (r: bool)
        ensures
            r == (self@ < rhs@),
    {
        self.raw < rhs.raw
    }

    /// Non-strict order on the real values.
    pub fn le(self, rhs: Scalar) -> (r: bool)
        ensures
            r == (self@ <= rhs@),
    {
        self.raw <= rhs.raw
    }

    /// Whether the real value is negative.
    pub fn is_neg(self) -> (r: bool)
        ensures
            r == (self@ < 0),
    {
        self.raw < 0
    }

    /// Whether the real value is zero.
    pub fn is_zero(self) -> (r: bool)
        ensures
            r == (self@ == 0),
    {
        self.raw == 0
    }
}

/// Stored value of a whole power, multiplied out with saturating products.
pub open spec fn s_pow(b: int, n: nat) -> int
    decreases n,
{
    if n == 0 {
        SCALE as int
    } else {
        s_mul(s_pow(b, (n - 1) as nat), b)
    }
}

/// Clamp a stored integer to the representable range.
fn sat_raw(v: i128) -> (r: i128)
    ensures
        r as int == sat(v as int),
        in_range(r as int),
{
    if v > VMAX {
        VMAX
    } else if v < -VMAX {
        -VMAX
    } else {
        v
    }
}

/// Truncating division on stored integers, computed through unsigned
/// division.
fn div_raw(a: i128, b: i128) -> (q: i128)
    requires
        b != 0,
        a > i128::MIN,
        b > i128::MIN,
    ensures
        q as int == tdiv(a as int, b as int),
{
    let an: u128 = if a < 0 {
        (-a) as u128
    } else {
        a as u128
    };
    let bn: u128 = if b < 0 {
        (-b) as u128
    } else {
        b as u128
    };
    assert(an as int == iabs(a as int));
    assert(bn as int == iabs(b as int));
    let qn: u128 = an / bn;
    assert(qn as int == iabs(a as int) / iabs(b as int));
    assert(qn <= an);
    let q: i128 = qn as i128;
    if (a < 0) != (b < 0) {
        -q
    } else {
        q
    }
}

/// Euclidean (floor) division of a stored integer by `SCALE`.
fn floor_div_scale(a: i128) -> (q: i128)
    requires
        in_range(a as int),
    ensures
        q as int == a as int / (SCALE as int),
        -1073741824 <= q <= 1073741824,
{
    let t = div_raw(a, SCALE);
    proof {
        vstd::arithmetic::div_mod::lemma_fundamental_div_mod(iabs(a as int), SCALE as int);
        vstd::arithmetic::div_mod::lemma_mod_bound(iabs(a as int), SCALE as int);
        assert(iabs(a as int) / (SCALE as int) <= 1073741824) by (nonlinear_arith)
            requires
                iabs(a as int) <= VMAX as int,
                iabs(a as int) == (SCALE as int) * (iabs(a as int) / (SCALE as int)) + iabs(
                    a as int,
                ) % (SCALE as int),
                0 <= iabs(a as int) % (SCALE as int),
        ;
    }
    if a >= 0 {
        proof {
            assert(t as int == a as int / (SCALE as int));
        }
        t
    } else {
        let back: i128 = t * SCALE;
        proof {
            let n = iabs(a as int);
            let q0 = n / (SCALE as int);
            let r0 = n % (SCALE as int);
            assert(t as int == -q0);
            if r0 == 0 {
                vstd::arithmetic::div_mod::lemma_fundamental_div_mod_converse(
                    a as int,
                    SCALE as int,
                    -q0,
                    0,
                );
            } else {
                vstd::arithmetic::div_mod::lemma_fundamental_div_mod_converse(
                    a as int,
                    SCALE as int,
                    -q0 - 1,
                    SCALE - r0,
                );
            }
        }
        if back == a {
            t
        } else {
            t - 1
        }
    }
}

/// The Euclidean remainder mod two of an integer and of its magnitude agree.
pub proof fn lemma_parity_abs(f: int)
    ensures
        f % 2 == iabs(f) % 2,
{
    if f < 0 {
        let n = iabs(f);
        let q0 = n / 2;
        let r0 = n % 2;
        vstd::arithmetic::div_mod::lemma_fundamental_div_mod(n, 2);
        vstd::arithmetic::div_mod::lemma_mod_bound(n, 2);
        if r0 == 0 {
            vstd::arithmetic::div_mod::lemma_fundamental_div_mod_converse(f, 2, -q0, 0);
        } else {
            vstd::arithmetic::div_mod::lemma_fundamental_div_mod_converse(f, 2, -q0 - 1, 1);
        }
    }
}

/// Integer square root by binary search.
fn isqrt_u128(x: u128) -> (r: u128)
    ensures
        is_isqrt(x as int, r as int),
{
    let mut lo: u128 = 0;
    let mut hi: u128 = 18446744073709551616u128;
    proof {
        let b: int = 18446744073709551616int;
        assert((x as int) < b * b);
    }
    while lo + 1 < hi
        invariant
            0 <= lo < hi <= 18446744073709551616u128,
            lo as int * lo as int <= x as int,
            (x as int) < (hi as int) * (hi as int),
        decreases hi - lo,
    {
        let mid: u128 = lo + (hi - lo) / 2;
        assert(lo < mid < hi);
        proof {
            let b: int = 340282366920938463463374607431768211456int;
            assert((mid as int) * (mid as int) < b) by (nonlinear_arith)
                requires
                    mid < 18446744073709551616u128,
                    b == 340282366920938463463374607431768211456int,
            ;
        }
        let sq: u128 = mid * mid;
        if sq <= x {
            lo = mid;
        } else {
            hi = mid;
        }
    }
    lo
}

/// A saturating square is never negative.
pub proof fn lemma_square_nonneg(a: int)
    ensures
        s_mul(a, a) >= 0,
{
    assert(a * a >= 0) by (nonlinear_arith);
    vstd::arithmetic::div_mod::lemma_div_pos_is_pos(a * a, SCALE as int);
}

/// Every non-negative integer has an integer square root, so
/// `sqrt_floor` picks the real one.
pub proof fn lemma_isqrt_exists(x: int)
    requires
        x >= 0,
    ensures
        is_isqrt(x, sqrt_floor(x)),
    decreases x,
{
    if x == 0 {
        assert(is_isqrt(0, 0));
    } else {
        lemma_isqrt_exists(x - 1);
        let r = sqrt_floor(x - 1);
        if (r + 1) * (r + 1) <= x {
            assert(is_isqrt(x, r + 1)) by (nonlinear_arith)
                requires
                    is_isqrt(x - 1, r),
                    (r + 1) * (r + 1) <= x,
            ;
        } else {
            assert(is_isqrt(x, r));
        }
    }
}

/// Truncating division lands within one divisor of the dividend.
pub proof fn lemma_tdiv_close(p: int, m: int)
    requires
        m != 0,
    ensures
        iabs(m * tdiv(p, m) - p) < iabs(m),
{
    let pn = iabs(p);
    let mn = iabs(m);
    let q0 = pn / mn;
    vstd::arithmetic::div_mod::lemma_fundamental_div_mod(pn, mn);
    vstd::arithmetic::div_mod::lemma_mod_bound(pn, mn);
    vstd::arithmetic::div_mod::lemma_div_pos_is_pos(pn, mn);
    assert(m * q0 == -(m * (-q0))) by (nonlinear_arith);
    if m > 0 {
        assert(m * q0 == mn * q0);
    } else {
        assert(m * q0 == -(mn * q0)) by (nonlinear_arith)
            requires
                mn == -m,
        ;
    }
}

/// Multiplying by zero gives zero.
pub proof fn lemma_s_mul_zero(x: int)
    ensures
        s_mul(x, 0) == 0,
        s_mul(0, x) == 0,
{
    vstd::arithmetic::div_mod::lemma_div_of0(SCALE as int);
}

/// Multiplying an in-range value by one gives it back.
pub proof fn lemma_s_mul_one(x: int)
    requires
        in_range(x),
    ensures
        s_mul(x, SCALE as int) == x,
        s_mul(SCALE as int, x) == x,
{
    assert(iabs(x * SCALE) == iabs(x) * (SCALE as int)) by (nonlinear_arith);
    assert((x >= 0) == (x * SCALE >= 0)) by (nonlinear_arith)
        requires
            SCALE > 0,
    ;
    vstd::arithmetic::div_mod::lemma_div_multiples_vanish(iabs(x), SCALE as int);
    assert(iabs(x) * (SCALE as int) == (SCALE as int) * iabs(x));
}

/// Zero and one behave as expected under the stored product, stated
/// with quantifiers so a single call covers every term of a fold.
pub proof fn lemma_s_mul_facts()
    ensures
        forall|x: int| #[trigger] s_mul(x, 0) == 0,
        forall|x: int| #[trigger] s_mul(0, x) == 0,
        forall|x: int| in_range(x) ==> #[trigger] s_mul(x, SCALE as int) == x,
        forall|x: int| in_range(x) ==> #[trigger] s_mul(SCALE as int, x) == x,
        forall|x: int| #[trigger] s_div(x, SCALE as int) == sat(x),
{
    assert forall|x: int| #[trigger] s_mul(x, 0) == 0 by {
        lemma_s_mul_zero(x);
    }
    assert forall|x: int| #[trigger] s_mul(0, x) == 0 by {
        lemma_s_mul_zero(x);
    }
    assert forall|x: int| in_range(x) implies #[trigger] s_mul(x, SCALE as int) == x by {
        lemma_s_mul_one(x);
    }
    assert forall|x: int| in_range(x) implies #[trigger] s_mul(SCALE as int, x) == x by {
        lemma_s_mul_one(x);
    }
    assert forall|x: int| #[trigger] s_div(x, SCALE as int) == sat(x) by {
        lemma_s_div_one(x);
    }
}

/// Dividing by one gives the value back, clamped to range.
pub proof fn lemma_s_div_one(a: int)
    ensures
        s_div(a, SCALE as int) == sat(a),
{
    assert(iabs(a * SCALE) == iabs(a) * (SCALE as int)) by (nonlinear_arith);
    assert((a >= 0) == (a * SCALE >= 0)) by (nonlinear_arith)
        requires
            SCALE > 0,
    ;
    vstd::arithmetic::div_mod::lemma_div_multiples_vanish(iabs(a), SCALE as int);
    assert(iabs(a) * (SCALE as int) == (SCALE as int) * iabs(a));
}

/// A quotient of positive stored values is at least one stored unit
/// when the scaled dividend reaches the divisor.
pub proof fn lemma_div_at_least_one(a: int, b: int)
    requires
        0 < a,
        0 < b,
        b <= a * SCALE,
    ensures
        s_div(a, b) >= 1,
{
    assert(a * SCALE > 0) by (nonlinear_arith)
        requires
            a > 0,
            SCALE > 0,
    ;
    vstd::arithmetic::div_mod::lemma_div_non_zero(a * SCALE, b);
}

/// The tolerance used by [`float_equal`], as a scalar.
pub fn epsilon() -> (r: Scalar)
    ensures
        r@ == EPSILON_RAW,
{
    Scalar { raw: EPSILON_RAW }
}

} // verus!
