//! Rays: an origin point and a direction vector.

use super::{is_point, is_vector, sp_add, sp_scale, t4, Point, Vector};
use crate::matrices::{m4_apply, Matrix};
use crate::scalar::Scalar;
use vstd::prelude::*;

verus! {

#[derive(Clone, Copy, Debug, PartialEq, Eq, Structural)]
pub struct Ray {
    pub origin: Point,
    pub direction: Vector,
}

/// A well-formed ray starts at a point and heads along a vector.
pub open spec fn ray_wf(r: Ray) -> bool {
    is_point(r.origin) && is_vector(r.direction)
}

impl Ray {
    pub fn new(origin: Point, direction: Vector) -> (r: Self)
        ensures
            r.origin == origin,
            r.direction == direction,
    {
        Ray { origin, direction }
    }

    /// The point `origin + direction * t`.
    pub fn position(&self, t: Scalar) -> (r: Point)
        requires
            ray_wf(*self),
        ensures
            t4(r) == sp_add(t4(self.origin), sp_scale(t4(self.direction), t@)),
    {
        self.origin.add(self.direction.mul(t))
    }

    /// Both the origin and the direction carried through the matrix.
    pub fn transform(&self, matrix: &Matrix) -> (r: Self)
        ensures
            t4(r.origin) == m4_apply(*matrix, t4(self.origin)),
            t4(r.direction) == m4_apply(*matrix, t4(self.direction)),
    {
        Ray {
            origin: matrix.coords_mul(self.origin),
            direction: matrix.coords_mul(self.direction),
        }
    }
}

} // verus!
