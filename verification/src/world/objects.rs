//! The geometric primitives and the closed shape type the world stores.

mod light;
mod plane;
mod sphere;

pub use light::Light;
pub use plane::{plane_hits, plane_normal_spec, plane_prenormal, plane_shape_hits, Plane};
pub use sphere::{
    lemma_tangent_equal_roots, sphere_disc, sphere_hits, sphere_normal_spec, sphere_prenormal,
    sphere_qa, sphere_qb, sphere_qc, sphere_shape_hits, sphere_t1, sphere_t2, Sphere,
};

use crate::base_types::{
    feq, is_point, sp_mag, sp_normalizable, sp_normalize_safe, sp_sub, t4, Coordinates, Point,
    Ray, T4,
};
use crate::matrices::{det4_of, m4_inv_apply, m4_invt_apply, Matrix};
use crate::scalar::{Scalar, SCALE};
use crate::visuals::{material_color_at, material_wf, Color, Material, C3};
use vstd::prelude::*;

verus! {

/// A scene object: one of the closed set of primitives, with uniform
/// storage so a world can keep them in one list.
#[derive(Debug)]
pub enum WorldShape {
    Sphere(Sphere),
    Plane(Plane),
}

/// The object's own transform.
pub open spec fn shape_transform(s: WorldShape) -> Matrix {
    match s {
        WorldShape::Sphere(v) => v.transform,
        WorldShape::Plane(v) => v.transform,
    }
}

/// The object's material.
pub open spec fn shape_material(s: WorldShape) -> Material {
    match s {
        WorldShape::Sphere(v) => v.material,
        WorldShape::Plane(v) => v.material,
    }
}

/// A well-formed object: a sphere's center is a point, and the material's
/// patterns sample through invertible transforms.
pub open spec fn shape_wf(s: WorldShape) -> bool {
    &&& match s {
        WorldShape::Sphere(v) => is_point(v.center),
        WorldShape::Plane(v) => true,
    }
    &&& material_wf(shape_material(s))
}

/// The distances at which a ray meets the object, already sorted
/// ascending: `None` when the object's transform cannot be inverted
/// (the object degrades to unhittable) or the ray misses. Kept opaque:
/// most contracts only name it.
#[verifier::opaque]
pub open spec fn shape_hits(s: WorldShape, origin: T4, dir: T4) -> Option<Seq<int>> {
    if det4_of(shape_transform(s)) == 0 {
        None
    } else {
        let o = m4_inv_apply(shape_transform(s), origin);
        let d = m4_inv_apply(shape_transform(s), dir);
        match s {
            WorldShape::Sphere(v) => sphere_hits(v, o, d),
            WorldShape::Plane(v) => plane_hits(o, d),
        }
    }
}

/// The surface normal in world space before normalization: the point is
/// carried to object space, the local normal is carried back through the
/// transpose of the inverse, and its `w` tag is forced back to zero.
/// Kept opaque: most contracts only name it.
#[verifier::opaque]
pub open spec fn shape_prenormal(s: WorldShape, world_point: T4) -> T4 {
    let m = shape_transform(s);
    let op = m4_inv_apply(m, world_point);
    let local = match s {
        WorldShape::Sphere(v) => sp_sub(op, t4(v.center)),
        WorldShape::Plane(v) => (0int, crate::scalar::SCALE as int, 0int, 0int),
    };
    let wn = m4_invt_apply(m, local);
    (wn.0, wn.1, wn.2, 0int)
}

/// The unit surface normal in world space at a world-space point on the
/// object: the pre-normalization normal scaled to unit length. Kept
/// opaque: most contracts only name it.
#[verifier::opaque]
pub open spec fn shape_normal(s: WorldShape, world_point: T4) -> T4 {
    sp_normalize_safe(shape_prenormal(s, world_point))
}

/// The color of the object's material at a world-space point, sampled
/// in object space. Kept opaque: most contracts only name it.
#[verifier::opaque]
pub open spec fn shape_color_at(s: WorldShape, world_point: T4) -> C3 {
    material_color_at(shape_material(s), m4_inv_apply(shape_transform(s), world_point))
}

/// The same object with its transform replaced.
pub open spec fn shape_with_transform(s: WorldShape, transform: Matrix) -> WorldShape {
    match s {
        WorldShape::Sphere(v) => WorldShape::Sphere(Sphere { transform, ..v }),
        WorldShape::Plane(v) => WorldShape::Plane(Plane { transform, ..v }),
    }
}

/// The same object with its material replaced.
pub open spec fn shape_with_material(s: WorldShape, material: Material) -> WorldShape {
    match s {
        WorldShape::Sphere(v) => WorldShape::Sphere(Sphere { material, ..v }),
        WorldShape::Plane(v) => WorldShape::Plane(Plane { material, ..v }),
    }
}

impl WorldShape {
    /// The object's own transform.
    pub fn get_transform(&self) -> (r: Matrix)
        ensures
            r == shape_transform(*self),
    {
        match self {
            WorldShape::Sphere(v) => v.transform,
            WorldShape::Plane(v) => v.transform,
        }
    }

    /// Replace the object's transform.
    pub fn set_transform(&mut self, transform: Matrix)
        ensures
            *final(self) == shape_with_transform(*old(self), transform),
    {
        match self {
            WorldShape::Sphere(v) => v.transform = transform,
            WorldShape::Plane(v) => v.transform = transform,
        }
    }

    /// The object's material.
    pub fn get_material(&self) -> (r: &Material)
        ensures
            *r == shape_material(*self),
    {
        match self {
            WorldShape::Sphere(v) => &v.material,
            WorldShape::Plane(v) => &v.material,
        }
    }

    /// Replace the object's material.
    pub fn set_material(&mut self, material: Material)
        ensures
            *final(self) == shape_with_material(*old(self), material),
    {
        match self {
            WorldShape::Sphere(v) => v.material = material,
            WorldShape::Plane(v) => v.material = material,
        }
    }

    /// The distances at which the ray meets this object, sorted
    /// ascending; a non-invertible transform makes the object
    /// unhittable rather than an error.
    pub fn intersect(&self, ray: Ray) -> (r: Option<Vec<Scalar>>)
        requires
            crate::base_types::ray_wf(ray),
            shape_wf(*self),
        ensures
            match shape_hits(*self, t4(ray.origin), t4(ray.direction)) {
                Some(ts) => {
                    &&& r is Some
                    &&& r->Some_0@.len() == ts.len()
                    &&& forall|k: int| 0 <= k < ts.len() ==> #[trigger] r->Some_0@[k]@ == ts[k]
                    &&& forall|k: int, l: int|
                        0 <= k < l < ts.len() ==> #[trigger] ts[k] <= #[trigger] ts[l]
                },
                None => r is None,
            },
    {
        proof {
            reveal(shape_hits);
        }
        match self {
            WorldShape::Sphere(v) => v.intersect(ray),
            WorldShape::Plane(v) => v.intersect(ray),
        }
    }

    /// The world-space surface normal at a world-space point.
    pub fn normal_at(&self, point: Point) -> (r: Coordinates)
        requires
            det4_of(shape_transform(*self)) != 0,
            shape_wf(*self),
            is_point(point),
        ensures
            t4(r) == shape_normal(*self, t4(point)),
            r.w@ == 0,
            sp_normalizable(shape_prenormal(*self, t4(point))) ==> feq(
                sp_mag(t4(r)),
                SCALE as int,
            ),
    {
        proof {
            reveal(shape_normal);
            reveal(shape_prenormal);
        }
        match self {
            WorldShape::Sphere(v) => v.normal_at(point),
            WorldShape::Plane(v) => v.normal_at(point),
        }
    }

    /// The material color at a world-space point, sampled in object
    /// space.
    pub fn color_at(&self, point: Point) -> (r: Color)
        requires
            det4_of(shape_transform(*self)) != 0,
            shape_wf(*self),
        ensures
            crate::visuals::c3(r) == shape_color_at(*self, t4(point)),
    {
        proof {
            reveal(shape_color_at);
        }
        match self {
            WorldShape::Sphere(v) => v.color_at(point),
            WorldShape::Plane(v) => v.color_at(point),
        }
    }
}

} // verus!
