//! The camera: maps pixel coordinates to world-space rays through its
//! transform, and drives the render loop.
//!
//! The constructor takes the half-view width — the tangent of half the
//! field of view — as a scalar: evaluating the tangent itself is left to
//! the caller at the edge of the library.

use super::world::{color_ok, depth_val, world_wf, World};
use crate::base_types::{
    feq, ray_wf, sp_mag, sp_normalizable, sp_normalize_safe, sp_sub, t4, Point, Ray, T4,
};
use crate::matrices::{det4_of, is_identity, lemma_inverse_apply, m4_inv_apply, Matrix};
use crate::scalar::{s_add, s_div, s_mul, s_sub, sat, Scalar, SCALE};
use crate::visuals::{c3, Color};
use vstd::prelude::*;

verus! {

pub struct Camera {
    pub hsize: usize,
    pub vsize: usize,
    pub half_width: Scalar,
    pub half_height: Scalar,
    pub pixel_size: Scalar,
    pub transform: Matrix,
}

/// The aspect ratio `hsize / vsize` as a stored integer.
pub open spec fn camera_aspect(hsize: int, vsize: int) -> int {
    s_div(sat(hsize * SCALE), sat(vsize * SCALE))
}

/// The half width of the canvas: the half view along the longer side,
/// scaled down by the aspect along the shorter one.
pub open spec fn camera_half_width(hsize: int, vsize: int, half_view: int) -> int {
    if hsize >= vsize {
        half_view
    } else {
        s_mul(half_view, camera_aspect(hsize, vsize))
    }
}

/// The half height of the canvas.
pub open spec fn camera_half_height(hsize: int, vsize: int, half_view: int) -> int {
    if hsize >= vsize {
        s_div(half_view, camera_aspect(hsize, vsize))
    } else {
        half_view
    }
}

/// The world-space size of one square pixel.
pub open spec fn camera_pixel_size(hsize: int, vsize: int, half_view: int) -> int {
    s_div(s_mul(camera_half_width(hsize, vsize, half_view), sat(2 * SCALE)), sat(hsize * SCALE))
}

/// The camera-space offset of the center of column or row `k`, given
/// the pixel size.
pub open spec fn pixel_offset(k: int, pixel_size: int) -> int {
    s_mul(s_add(sat(k * SCALE), sat(SCALE as int / 2)), pixel_size)
}

/// The origin of every ray this camera casts: the camera point carried
/// through the inverse transform.
pub open spec fn camera_ray_origin(c: Camera) -> T4 {
    m4_inv_apply(c.transform, (0int, 0int, 0int, SCALE as int))
}

/// From the ray's origin to the center of pixel `(x, y)` on the canvas
/// plane at `z = -1`, both carried through the inverse transform.
pub open spec fn camera_ray_delta(c: Camera, x: int, y: int) -> T4 {
    let world_x = s_sub(c.half_width@, pixel_offset(x, c.pixel_size@));
    let world_y = s_sub(c.half_height@, pixel_offset(y, c.pixel_size@));
    let pixel = m4_inv_apply(c.transform, (world_x, world_y, -(SCALE as int), SCALE as int));
    sp_sub(pixel, camera_ray_origin(c))
}

/// The direction of the ray through pixel `(x, y)`: toward the point of
/// the canvas plane at `z = -1`, normalized.
pub open spec fn camera_ray_dir(c: Camera, x: int, y: int) -> T4 {
    sp_normalize_safe(camera_ray_delta(c, x, y))
}

impl Camera {
    /// A camera over a canvas of `hsize` by `vsize` pixels whose half
    /// view width — the tangent of half the field of view — is
    /// `half_view`, with the identity transform.
    pub fn new(hsize: usize, vsize: usize, half_view: Scalar) -> (r: Self)
        requires
            0 < hsize <= 1073741824,
            0 < vsize <= 1073741824,
        ensures
            r.hsize == hsize,
            r.vsize == vsize,
            is_identity(r.transform),
            r.half_width@ == camera_half_width(hsize as int, vsize as int, half_view@),
            r.half_height@ == camera_half_height(hsize as int, vsize as int, half_view@),
            r.pixel_size@ == camera_pixel_size(hsize as int, vsize as int, half_view@),
    {
        let hs = Scalar::from_usize(hsize);
        let vs = Scalar::from_usize(vsize);
        proof {
            assert(sat(hsize as int * SCALE) >= SCALE);
            assert(sat(vsize as int * SCALE) >= SCALE);
            crate::scalar::lemma_div_at_least_one(
                sat(hsize as int * SCALE),
                sat(vsize as int * SCALE),
            );
        }
        let aspect = hs.div(vs);
        let half_width: Scalar;
        let half_height: Scalar;
        if hsize >= vsize {
            half_width = half_view;
            half_height = half_view.div(aspect);
        } else {
            half_width = half_view.mul(aspect);
            half_height = half_view;
        }
        let two = Scalar::from_int(2);
        let pixel_size = half_width.mul(two).div(hs);
        Self {
            hsize,
            vsize,
            half_width,
            half_height,
            pixel_size,
            transform: Matrix::new_identity(),
        }
    }

    /// The world-space ray through the center of pixel `(x, y)`.
    pub fn ray_for_pixel(&self, x: usize, y: usize) -> (r: Ray)
        requires
            det4_of(self.transform) != 0,
        ensures
            t4(r.origin) == camera_ray_origin(*self),
            t4(r.direction) == camera_ray_dir(*self, x as int, y as int),
            ray_wf(r),
            sp_normalizable(camera_ray_delta(*self, x as int, y as int)) ==> feq(
                sp_mag(t4(r.direction)),
                SCALE as int,
            ),
    {
        let half = Scalar::from_ratio(1, 2);
        let x_offset = Scalar::from_usize(x).add(half).mul(self.pixel_size);
        let y_offset = Scalar::from_usize(y).add(half).mul(self.pixel_size);
        let world_x = self.half_width.sub(x_offset);
        let world_y = self.half_height.sub(y_offset);
        let inv = self.transform.inverse();
        match inv {
            Some(mi) => {
                let zero = Scalar::zero();
                let origin_local = Point::new_point(zero, zero, zero);
                let pixel_local = Point::new_point(world_x, world_y, Scalar::one().neg());
                proof {
                    lemma_inverse_apply(self.transform, mi, t4(origin_local));
                    lemma_inverse_apply(self.transform, mi, t4(pixel_local));
                }
                let origin = mi.coords_mul(origin_local);
                let pixel = mi.coords_mul(pixel_local);
                let direction = pixel.sub(origin).normalize_or_zero();
                Ray { origin, direction }
            },
            None => {
                let zero = Scalar::zero();
                Ray {
                    origin: Point::new_point(zero, zero, zero),
                    direction: crate::base_types::Vector::new_vector(zero, zero, zero),
                }
            },
        }
    }

    /// Render the scene: one ray through each pixel's center, row by
    /// row; the pixel grid comes back row-major, each color a valid
    /// scene color for its ray at the default reflection budget.
    pub fn render(&self, world: &World) -> (r: Vec<Vec<Color>>)
        requires
            det4_of(self.transform) != 0,
            world_wf(*world),
        ensures
            r@.len() == self.vsize,
            forall|y: int| 0 <= y < self.vsize ==> (#[trigger] r@[y])@.len() == self.hsize,
            forall|y: int, x: int|
                0 <= y < self.vsize && 0 <= x < self.hsize ==> color_ok(
                    *world,
                    camera_ray_origin(*self),
                    camera_ray_dir(*self, x, y),
                    depth_val(Option::<usize>::None) as nat,
                    c3(#[trigger] r@[y]@[x]),
                ),
    {
        let mut image: Vec<Vec<Color>> = Vec::new();
        let mut y: usize = 0;
        while y < self.vsize
            invariant
                y <= self.vsize,
                det4_of(self.transform) != 0,
                world_wf(*world),
                image@.len() == y,
                forall|yy: int| 0 <= yy < y ==> (#[trigger] image@[yy])@.len() == self.hsize,
                forall|yy: int, x: int|
                    0 <= yy < y && 0 <= x < self.hsize ==> color_ok(
                        *world,
                        camera_ray_origin(*self),
                        camera_ray_dir(*self, x, yy),
                        depth_val(Option::<usize>::None) as nat,
                        c3(#[trigger] image@[yy]@[x]),
                    ),
            decreases self.vsize - y,
        {
            let mut row: Vec<Color> = Vec::new();
            let mut x: usize = 0;
            while x < self.hsize
                invariant
                    x <= self.hsize,
                    y < self.vsize,
                    det4_of(self.transform) != 0,
                    world_wf(*world),
                    row@.len() == x,
                    forall|xx: int|
                        0 <= xx < x ==> color_ok(
                            *world,
                            camera_ray_origin(*self),
                            camera_ray_dir(*self, xx, y as int),
                            depth_val(Option::<usize>::None) as nat,
                            c3(#[trigger] row@[xx]),
                        ),
                decreases self.hsize - x,
            {
                let ray = self.ray_for_pixel(x, y);
                let color = world.color_at(ray, None);
                row.push(color);
                x = x + 1;
            }
            image.push(row);
            y = y + 1;
        }
        image
    }
}

} // verus!
