//! Spheres: a center point and radius in local space, a transform into
//! the world, and a material.

use crate::base_types::{
    feq, is_point, sp_dot, sp_mag, sp_normalizable, sp_normalize_safe, sp_sub, t4, Point, Ray,
    Vector, T4,
};
use crate::matrices::{
    det4_of, lemma_inverse_apply, lemma_inverse_transpose_apply, m4_inv_apply, m4_invt_apply,
    Matrix,
};
use crate::scalar::{
    s_add, s_div, s_mul, s_sqrt, s_sub, sat, sqrt_floor, Scalar, SCALE,
};
use crate::visuals::{c3, is_default_material, material_color_at, material_wf, Color, Material};
use vstd::prelude::*;

verus! {

#[derive(Debug)]
pub struct Sphere {
    pub center: Point,
    pub radius: Scalar,
    pub transform: Matrix,
    pub material: Material,
}

/// The quadratic coefficient `a = dir . dir` of a sphere intersection.
pub open spec fn sphere_qa(dir: T4) -> int {
    sp_dot(dir, dir)
}

/// The quadratic coefficient `b = 2 * dir . (origin - center)`.
pub open spec fn sphere_qb(center: T4, origin: T4, dir: T4) -> int {
    s_mul(sat(2 * SCALE), sp_dot(dir, sp_sub(origin, center)))
}

/// The quadratic coefficient `c = |origin - center|^2 - r^2`.
pub open spec fn sphere_qc(center: T4, radius: int, origin: T4) -> int {
    s_sub(sp_dot(sp_sub(origin, center), sp_sub(origin, center)), s_mul(radius, radius))
}

/// The discriminant `b^2 - 4 a c`.
pub open spec fn sphere_disc(center: T4, radius: int, origin: T4, dir: T4) -> int {
    let a = sphere_qa(dir);
    let b = sphere_qb(center, origin, dir);
    let c = sphere_qc(center, radius, origin);
    s_sub(s_mul(b, b), s_mul(s_mul(sat(4 * SCALE), a), c))
}

/// The root `(-b - sqrt(disc)) / (2 a)`.
pub open spec fn sphere_t1(center: T4, radius: int, origin: T4, dir: T4) -> int {
    let b = sphere_qb(center, origin, dir);
    s_div(
        s_sub(-b, s_sqrt(sphere_disc(center, radius, origin, dir))),
        s_mul(sat(2 * SCALE), sphere_qa(dir)),
    )
}

/// The root `(-b + sqrt(disc)) / (2 a)`.
pub open spec fn sphere_t2(center: T4, radius: int, origin: T4, dir: T4) -> int {
    let b = sphere_qb(center, origin, dir);
    s_div(
        s_add(-b, s_sqrt(sphere_disc(center, radius, origin, dir))),
        s_mul(sat(2 * SCALE), sphere_qa(dir)),
    )
}

/// The distances at which a local-space ray meets the sphere: none when
/// the discriminant is negative or the quadratic degenerates, else the
/// two roots in ascending order (equal for a tangent ray).
pub open spec fn sphere_hits(s: Sphere, origin: T4, dir: T4) -> Option<Seq<int>> {
    let disc = sphere_disc(t4(s.center), s.radius@, origin, dir);
    let denom = s_mul(sat(2 * SCALE), sphere_qa(dir));
    if disc < 0 || denom == 0 {
        None
    } else {
        let t1 = sphere_t1(t4(s.center), s.radius@, origin, dir);
        let t2 = sphere_t2(t4(s.center), s.radius@, origin, dir);
        if t1 <= t2 {
            Some(seq![t1, t2])
        } else {
            Some(seq![t2, t1])
        }
    }
}

/// A tangent ray — one whose discriminant is exactly zero — meets the
/// sphere in two equal roots; `sphere_hits` then carries that root
/// twice. Any other ray the solver accepts yields exactly two roots, as
/// `sphere_hits` shows directly.
pub proof fn lemma_tangent_equal_roots(center: T4, radius: int, origin: T4, dir: T4)
    requires
        sphere_disc(center, radius, origin, dir) == 0,
    ensures
        sphere_t1(center, radius, origin, dir) == sphere_t2(center, radius, origin, dir),
{
    assert(crate::scalar::is_isqrt(0, 0));
    crate::scalar::lemma_isqrt_unique(0, 0, sqrt_floor(0));
    assert(s_sqrt(0) == 0);
}

impl Sphere {
    pub fn new(center: Point, radius: Scalar, transform: Matrix, material: Material) -> (r: Self)
        ensures
            r.center == center,
            r.radius == radius,
            r.transform == transform,
            r.material == material,
    {
        Self { center, radius, transform, material }
    }

    pub fn get_transform(&self) -> (r: Matrix)
        ensures
            r == self.transform,
    {
        self.transform
    }

    pub fn set_transform(&mut self, transform: Matrix)
        ensures
            *final(self) == (Sphere { transform, ..*old(self) }),
    {
        self.transform = transform;
    }

    pub fn get_material(&self) -> (r: &Material)
        ensures
            *r == self.material,
    {
        &self.material
    }

    pub fn set_material(&mut self, material: Material)
        ensures
            *final(self) == (Sphere { material, ..*old(self) }),
    {
        self.material = material;
    }

    /// Solve `|origin + t dir - center|^2 = r^2` for a ray already in
    /// this sphere's local space: no intersection when the discriminant
    /// is negative, else both roots in ascending order.
    pub fn local_intersect(&self, ray: Ray) -> (r: Option<Vec<Scalar>>)
        requires
            ray.origin.w@ >= self.center.w@,
        ensures
            match sphere_hits(*self, t4(ray.origin), t4(ray.direction)) {
                Some(ts) => {
                    &&& r is Some
                    &&& r->Some_0@.len() == ts.len()
                    &&& forall|k: int| 0 <= k < ts.len() ==> #[trigger] r->Some_0@[k]@ == ts[k]
                },
                None => r is None,
            },
    {
        let two = Scalar::from_int(2);
        let four = Scalar::from_int(4);
        let sphere_to_ray = ray.origin.sub(self.center);
        let a = ray.direction.dot(ray.direction);
        let b = two.mul(ray.direction.dot(sphere_to_ray));
        let c = sphere_to_ray.dot(sphere_to_ray).sub(self.radius.mul(self.radius));

        let discriminant = b.mul(b).sub(four.mul(a).mul(c));
        if discriminant.is_neg() {
            return None;
        }
        let component2 = two.mul(a);
        if component2.is_zero() {
            return None;
        }
        let component1 = discriminant.sqrt();
        let intersection1 = b.neg().sub(component1).div(component2);
        let intersection2 = b.neg().add(component1).div(component2);

        let mut roots: Vec<Scalar> = Vec::new();
        if intersection1.le(intersection2) {
            roots.push(intersection1);
            roots.push(intersection2);
        } else {
            roots.push(intersection2);
            roots.push(intersection1);
        }
        Some(roots)
    }

    /// The local normal: the vector from the center to the point.
    pub fn local_normal_at(&self, point: Point) -> (r: Vector)
        requires
            point.w@ >= self.center.w@,
        ensures
            t4(r) == sp_sub(t4(point), t4(self.center)),
    {
        point.sub(self.center)
    }

    /// The distances at which a world-space ray meets this sphere; with
    /// a non-invertible transform the sphere is unhittable.
    pub fn intersect(&self, ray: Ray) -> (r: Option<Vec<Scalar>>)
        requires
            ray.origin.w@ >= self.center.w@,
        ensures
            match sphere_shape_hits(*self, t4(ray.origin), t4(ray.direction)) {
                Some(ts) => {
                    &&& r is Some
                    &&& r->Some_0@.len() == ts.len()
                    &&& forall|k: int| 0 <= k < ts.len() ==> #[trigger] r->Some_0@[k]@ == ts[k]
                },
                None => r is None,
            },
    {
        let inv = self.transform.inverse();
        match inv {
            Some(mi) => {
                proof {
                    lemma_inverse_apply(self.transform, mi, t4(ray.origin));
                    lemma_inverse_apply(self.transform, mi, t4(ray.direction));
                }
                let transformed_ray = ray.transform(&mi);
                self.local_intersect(transformed_ray)
            },
            None => None,
        }
    }

    /// The world-space surface normal at a world-space point.
    pub fn normal_at(&self, point: Point) -> (r: Vector)
        requires
            det4_of(self.transform) != 0,
            is_point(self.center),
            is_point(point),
        ensures
            t4(r) == sphere_normal_spec(*self, t4(point)),
            r.w@ == 0,
            sp_normalizable(sphere_prenormal(*self, t4(point))) ==> feq(
                sp_mag(t4(r)),
                SCALE as int,
            ),
    {
        let inv = self.transform.inverse();
        match inv {
            Some(mi) => {
                proof {
                    lemma_inverse_apply(self.transform, mi, t4(point));
                }
                let object_point = mi.coords_mul(point);
                let object_normal = self.local_normal_at(object_point);
                let trans = mi.transpose();
                proof {
                    lemma_inverse_transpose_apply(self.transform, trans, t4(object_normal));
                }
                let world_normal = trans.coords_mul(object_normal);
                Vector::new_vector(world_normal.x, world_normal.y, world_normal.z)
                    .normalize_or_zero()
            },
            None => {
                let z = Scalar::zero();
                Vector::new_vector(z, z, z)
            },
        }
    }

    /// The material color at a world-space point, sampled in object
    /// space.
    pub fn color_at(&self, point: Point) -> (r: Color)
        requires
            det4_of(self.transform) != 0,
            material_wf(self.material),
        ensures
            c3(r) == material_color_at(self.material, m4_inv_apply(self.transform, t4(point))),
    {
        let inv = self.transform.inverse();
        match inv {
            Some(mi) => {
                proof {
                    lemma_inverse_apply(self.transform, mi, t4(point));
                }
                let object_space_point = mi.coords_mul(point);
                self.material.color_at(object_space_point)
            },
            None => self.material.color_at(point),
        }
    }
}

/// `sphere_hits` behind the sphere's own transform: the world ray is
/// carried to local space first.
pub open spec fn sphere_shape_hits(s: Sphere, origin: T4, dir: T4) -> Option<Seq<int>> {
    if det4_of(s.transform) == 0 {
        None
    } else {
        sphere_hits(s, m4_inv_apply(s.transform, origin), m4_inv_apply(s.transform, dir))
    }
}

/// The world-space normal of a sphere before normalization: the local
/// normal carried back through the transpose of the inverse transform,
/// its `w` tag forced back to zero.
pub open spec fn sphere_prenormal(s: Sphere, world_point: T4) -> T4 {
    let op = m4_inv_apply(s.transform, world_point);
    let local = sp_sub(op, t4(s.center));
    let wn = m4_invt_apply(s.transform, local);
    (wn.0, wn.1, wn.2, 0int)
}

/// The world-space normal of a sphere at a world-space point.
pub open spec fn sphere_normal_spec(s: Sphere, world_point: T4) -> T4 {
    sp_normalize_safe(sphere_prenormal(s, world_point))
}

impl Default for Sphere {
    /// The unit sphere at the origin with the identity transform and
    /// the default material.
    fn default() -> (r: Self)
        ensures
            t4(r.center) == (0int, 0int, 0int, SCALE as int),
            r.radius@ == SCALE,
            crate::matrices::is_identity(r.transform),
            is_default_material(r.material),
    {
        let z = Scalar::zero();
        Self {
            center: Point::new_point(z, z, z),
            radius: Scalar::one(),
            transform: Matrix::new_identity(),
            material: Material::default(),
        }
    }
}

} // verus!
