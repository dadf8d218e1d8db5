//! Points: coordinates whose `w` tag is one.

use super::Coordinates;
use crate::scalar::{Scalar, SCALE};
use vstd::prelude::*;

verus! {

pub type Point = Coordinates;

impl Point {
    /// A point at the given position.
    pub fn new_point(x: Scalar, y: Scalar, z: Scalar) -> (r: Self)
        ensures
            r.x == x,
            r.y == y,
            r.z == z,
            r.w@ == SCALE,
    {
        Coordinates { x, y, z, w: Scalar::one() }
    }
}

} // verus!
