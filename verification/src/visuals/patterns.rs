//! Composable point-to-color patterns: stripe, ring, checker, gradient,
//! and a perturbing decorator. Each pattern owns a transform and may nest
//! two child patterns, which are sampled at the same point in its place.
//!
//! The checker alternates by the parity of `floor(x) + floor(y) +
//! floor(z)`: each axis is floored on its own and the whole numbers are
//! summed, which differs from flooring the sum for points that are not
//! aligned to whole units.

use super::color::{c3, cp_add, cp_scale, cp_sub, Color, C3};
use crate::base_types::{sp_add_scalar, t4, Point, T4};
use crate::matrices::{is_identity, Matrix};
use crate::scalar::{
    floor_int, s_add, s_div, s_floor, s_mul, s_sqrt, s_sub, sat, Scalar, SCALE,
};
use vstd::prelude::*;

verus! {

#[derive(Debug)]
pub struct StripePattern {
    pub color_a: Color,
    pub color_b: Color,
    pub transform: Matrix,
    pub nested_patterns: Option<Box<(Pattern, Pattern)>>,
}

#[derive(Debug)]
pub struct RingPattern {
    pub color_a: Color,
    pub color_b: Color,
    pub transform: Matrix,
    pub nested_patterns: Option<Box<(Pattern, Pattern)>>,
}

#[derive(Debug)]
pub struct CheckerPattern {
    pub color_a: Color,
    pub color_b: Color,
    pub transform: Matrix,
    pub nested_patterns: Option<Box<(Pattern, Pattern)>>,
}

#[derive(Debug)]
pub struct GradientPattern {
    pub color_a: Color,
    pub color_b: Color,
    pub transform: Matrix,
    pub nested_patterns: Option<Box<(Pattern, Pattern)>>,
}

#[derive(Debug)]
pub struct PerturbPattern {
    pub pattern: Box<Pattern>,
}

#[derive(Debug)]
pub enum Pattern {
    Stripe(StripePattern),
    Ring(RingPattern),
    Checker(CheckerPattern),
    Gradient(GradientPattern),
    Perturb(PerturbPattern),
}

/// The scale of the perturbing offset: `(sqrt(4) - 1) / 3` of a unit.
pub open spec fn perturb_scale() -> int {
    s_div(s_sub(s_sqrt(sat(4 * SCALE)), SCALE as int), sat(3 * SCALE))
}

/// The color a pattern yields at a point already in pattern space.
pub open spec fn pattern_color_spec(p: Pattern, point: T4) -> C3
    decreases p,
{
    match p {
        Pattern::Stripe(s) => {
            let first = floor_int(point.0) % 2 == 0;
            match s.nested_patterns {
                Some(children) => {
                    if first {
                        pattern_color_spec(children.0, point)
                    } else {
                        pattern_color_spec(children.1, point)
                    }
                },
                None => {
                    if first {
                        c3(s.color_a)
                    } else {
                        c3(s.color_b)
                    }
                },
            }
        },
        Pattern::Ring(s) => {
            let rad = s_sqrt(s_add(s_mul(point.0, point.0), s_mul(point.2, point.2)));
            let first = floor_int(rad) % 2 == 0;
            match s.nested_patterns {
                Some(children) => {
                    if first {
                        pattern_color_spec(children.0, point)
                    } else {
                        pattern_color_spec(children.1, point)
                    }
                },
                None => {
                    if first {
                        c3(s.color_a)
                    } else {
                        c3(s.color_b)
                    }
                },
            }
        },
        Pattern::Checker(s) => {
            let first = (floor_int(point.0) + floor_int(point.1) + floor_int(point.2)) % 2 == 0;
            match s.nested_patterns {
                Some(children) => {
                    if first {
                        pattern_color_spec(children.0, point)
                    } else {
                        pattern_color_spec(children.1, point)
                    }
                },
                None => {
                    if first {
                        c3(s.color_a)
                    } else {
                        c3(s.color_b)
                    }
                },
            }
        },
        Pattern::Gradient(s) => {
            let frac = point.0 - s_floor(point.0);
            match s.nested_patterns {
                Some(children) => {
                    let ca = pattern_color_spec(children.0, point);
                    let cb = pattern_color_spec(children.1, point);
                    cp_add(ca, cp_scale(cp_sub(cb, ca), frac))
                },
                None => cp_add(
                    c3(s.color_a),
                    cp_scale(cp_sub(c3(s.color_b), c3(s.color_a)), frac),
                ),
            }
        },
        Pattern::Perturb(s) => {
            let noise = s_mul(s_add(s_add(point.0, point.1), point.2), perturb_scale());
            pattern_color_spec(*s.pattern, sp_add_scalar(point, noise))
        },
    }
}

/// The transform a pattern samples through; a perturb decorator carries
/// its child's.
pub open spec fn pattern_transform(p: Pattern) -> Matrix
    decreases p,
{
    match p {
        Pattern::Stripe(s) => s.transform,
        Pattern::Ring(s) => s.transform,
        Pattern::Checker(s) => s.transform,
        Pattern::Gradient(s) => s.transform,
        Pattern::Perturb(s) => pattern_transform(*s.pattern),
    }
}

/// The same pattern with its transform replaced; a perturb decorator
/// passes the transform through to its child.
pub open spec fn pattern_with_transform(p: Pattern, t: Matrix) -> Pattern
    decreases p,
{
    match p {
        Pattern::Stripe(s) => Pattern::Stripe(
            StripePattern {
                color_a: s.color_a,
                color_b: s.color_b,
                transform: t,
                nested_patterns: s.nested_patterns,
            },
        ),
        Pattern::Ring(s) => Pattern::Ring(
            RingPattern {
                color_a: s.color_a,
                color_b: s.color_b,
                transform: t,
                nested_patterns: s.nested_patterns,
            },
        ),
        Pattern::Checker(s) => Pattern::Checker(
            CheckerPattern {
                color_a: s.color_a,
                color_b: s.color_b,
                transform: t,
                nested_patterns: s.nested_patterns,
            },
        ),
        Pattern::Gradient(s) => Pattern::Gradient(
            GradientPattern {
                color_a: s.color_a,
                color_b: s.color_b,
                transform: t,
                nested_patterns: s.nested_patterns,
            },
        ),
        Pattern::Perturb(s) => Pattern::Perturb(
            PerturbPattern { pattern: Box::new(pattern_with_transform(*s.pattern, t)) },
        ),
    }
}

impl Pattern {
    /// The color at a point already in pattern space.
    pub fn color_at(&self, point: Point) -> (r: Color)
        ensures
            c3(r) == pattern_color_spec(*self, t4(point)),
        decreases *self,
    {
        match self {
            Pattern::Stripe(s) => {
                if point.x.floor_even() {
                    match &s.nested_patterns {
                        Some(children) => children.0.color_at(point),
                        None => s.color_a,
                    }
                } else {
                    match &s.nested_patterns {
                        Some(children) => children.1.color_at(point),
                        None => s.color_b,
                    }
                }
            },
            Pattern::Ring(s) => {
                let xx = point.x.mul(point.x);
                let zz = point.z.mul(point.z);
                proof {
                    crate::scalar::lemma_square_nonneg(point.x@);
                    crate::scalar::lemma_square_nonneg(point.z@);
                }
                let rad = xx.add(zz).sqrt();
                if rad.floor_even() {
                    match &s.nested_patterns {
                        Some(children) => children.0.color_at(point),
                        None => s.color_a,
                    }
                } else {
                    match &s.nested_patterns {
                        Some(children) => children.1.color_at(point),
                        None => s.color_b,
                    }
                }
            },
            Pattern::Checker(s) => {
                let sum: i128 = point.x.whole() + point.y.whole() + point.z.whole();
                let m: u128 = if sum < 0 {
                    (-sum) as u128
                } else {
                    sum as u128
                };
                proof {
                    crate::scalar::lemma_parity_abs(sum as int);
                }
                if m % 2 == 0 {
                    match &s.nested_patterns {
                        Some(children) => children.0.color_at(point),
                        None => s.color_a,
                    }
                } else {
                    match &s.nested_patterns {
                        Some(children) => children.1.color_at(point),
                        None => s.color_b,
                    }
                }
            },
            Pattern::Gradient(s) => {
                let x_fraction = point.x.fract();
                match &s.nested_patterns {
                    Some(children) => {
                        let color_a = children.0.color_at(point);
                        let color_b = children.1.color_at(point);
                        color_a.add(color_b.sub(color_a).mul_scalar(x_fraction))
                    },
                    None => s.color_a.add(
                        s.color_b.sub(s.color_a).mul_scalar(x_fraction),
                    ),
                }
            },
            Pattern::Perturb(s) => {
                let four = Scalar::from_int(4);
                let three = Scalar::from_int(3);
                let noise_scale = four.sqrt().sub(Scalar::one()).div(three);
                let base = point.x.add(point.y).add(point.z);
                let noise = base.mul(noise_scale);
                let perturbed = point.add_scalar(noise);
                s.pattern.color_at(perturbed)
            },
        }
    }

    /// A deep copy: the clone carries the same colors, transforms and
    /// children.
    pub fn clone_pattern(&self) -> (r: Pattern)
        ensures
            r == *self,
        decreases *self,
    {
        match self {
            Pattern::Stripe(s) => Pattern::Stripe(
                StripePattern {
                    color_a: s.color_a,
                    color_b: s.color_b,
                    transform: s.transform,
                    nested_patterns: clone_children(&s.nested_patterns),
                },
            ),
            Pattern::Ring(s) => Pattern::Ring(
                RingPattern {
                    color_a: s.color_a,
                    color_b: s.color_b,
                    transform: s.transform,
                    nested_patterns: clone_children(&s.nested_patterns),
                },
            ),
            Pattern::Checker(s) => Pattern::Checker(
                CheckerPattern {
                    color_a: s.color_a,
                    color_b: s.color_b,
                    transform: s.transform,
                    nested_patterns: clone_children(&s.nested_patterns),
                },
            ),
            Pattern::Gradient(s) => Pattern::Gradient(
                GradientPattern {
                    color_a: s.color_a,
                    color_b: s.color_b,
                    transform: s.transform,
                    nested_patterns: clone_children(&s.nested_patterns),
                },
            ),
            Pattern::Perturb(s) => Pattern::Perturb(
                PerturbPattern { pattern: Box::new(s.pattern.clone_pattern()) },
            ),
        }
    }

    /// The transform this pattern samples through.
    pub fn get_transform(&self) -> (r: Matrix)
        ensures
            r == pattern_transform(*self),
        decreases *self,
    {
        match self {
            Pattern::Stripe(s) => s.transform,
            Pattern::Ring(s) => s.transform,
            Pattern::Checker(s) => s.transform,
            Pattern::Gradient(s) => s.transform,
            Pattern::Perturb(s) => s.pattern.get_transform(),
        }
    }

    /// Replace the transform this pattern samples through.
    pub fn set_transform(&mut self, transform: Matrix)
        ensures
            *final(self) == pattern_with_transform(*old(self), transform),
        decreases *old(self),
    {
        match self {
            Pattern::Stripe(s) => s.transform = transform,
            Pattern::Ring(s) => s.transform = transform,
            Pattern::Checker(s) => s.transform = transform,
            Pattern::Gradient(s) => s.transform = transform,
            Pattern::Perturb(s) => s.pattern.set_transform(transform),
        }
    }
}

/// A deep copy of an optional pair of child patterns.
fn clone_children(c: &Option<Box<(Pattern, Pattern)>>) -> (r: Option<Box<(Pattern, Pattern)>>)
    ensures
        r == *c,
    decreases *c,
{
    match c {
        Some(children) => Some(
            Box::new((children.0.clone_pattern(), children.1.clone_pattern())),
        ),
        None => None,
    }
}

impl StripePattern {
    pub fn new(a: Color, b: Color, nested_patterns: Option<Box<(Pattern, Pattern)>>) -> (r: Self)
        ensures
            r.color_a == a,
            r.color_b == b,
            r.nested_patterns == nested_patterns,
            is_identity(r.transform),
    {
        Self { color_a: a, color_b: b, transform: Matrix::new_identity(), nested_patterns }
    }

    /// The stripe color at a point: `color_a` on even whole numbers of
    /// `x`, `color_b` on odd ones.
    pub fn stripe_at(&self, point: Point) -> (r: Color)
        ensures
            c3(r) == pattern_color_spec(Pattern::Stripe(*self), t4(point)),
    {
        if point.x.floor_even() {
            match &self.nested_patterns {
                Some(children) => children.0.color_at(point),
                None => self.color_a,
            }
        } else {
            match &self.nested_patterns {
                Some(children) => children.1.color_at(point),
                None => self.color_b,
            }
        }
    }

    pub fn set_transform(&mut self, transform: Matrix)
        ensures
            *final(self) == (StripePattern { transform, ..*old(self) }),
    {
        self.transform = transform;
    }
}

impl RingPattern {
    pub fn new(color_a: Color, color_b: Color, nested_patterns: Option<Box<(Pattern, Pattern)>>)
        -> (r: Self)
        ensures
            r.color_a == color_a,
            r.color_b == color_b,
            r.nested_patterns == nested_patterns,
            is_identity(r.transform),
    {
        Self { color_a, color_b, transform: Matrix::new_identity(), nested_patterns }
    }

    pub fn set_transform(&mut self, transform: Matrix)
        ensures
            *final(self) == (RingPattern { transform, ..*old(self) }),
    {
        self.transform = transform;
    }
}

impl CheckerPattern {
    pub fn new(color_a: Color, color_b: Color, nested_patterns: Option<Box<(Pattern, Pattern)>>)
        -> (r: Self)
        ensures
            r.color_a == color_a,
            r.color_b == color_b,
            r.nested_patterns == nested_patterns,
            is_identity(r.transform),
    {
        Self { color_a, color_b, transform: Matrix::new_identity(), nested_patterns }
    }

    pub fn set_transform(&mut self, transform: Matrix)
        ensures
            *final(self) == (CheckerPattern { transform, ..*old(self) }),
    {
        self.transform = transform;
    }
}

impl GradientPattern {
    pub fn new(color_a: Color, color_b: Color, nested_patterns: Option<Box<(Pattern, Pattern)>>)
        -> (r: Self)
        ensures
            r.color_a == color_a,
            r.color_b == color_b,
            r.nested_patterns == nested_patterns,
            is_identity(r.transform),
    {
        Self { color_a, color_b, transform: Matrix::new_identity(), nested_patterns }
    }

    pub fn set_transform(&mut self, transform: Matrix)
        ensures
            *final(self) == (GradientPattern { transform, ..*old(self) }),
    {
        self.transform = transform;
    }
}

impl PerturbPattern {
    pub fn new(pattern: Pattern) -> (r: Self)
        ensures
            r.pattern == pattern,
    {
        Self { pattern: Box::new(pattern) }
    }
}

} // verus!
