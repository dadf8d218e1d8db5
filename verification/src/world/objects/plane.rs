//! Planes: the local x-z plane through the origin; any other placement
//! comes from the object's transform.

use crate::base_types::{
    feq, sp_mag, sp_normalizable, sp_normalize_safe, t4, Point, Ray, Vector, T4,
};
use crate::matrices::{
    det4_of, lemma_inverse_apply, lemma_inverse_transpose_apply, m4_inv_apply, m4_invt_apply,
    Matrix,
};
use crate::scalar::{s_div, Scalar, SCALE};
use crate::visuals::{c3, is_default_material, material_color_at, material_wf, Color, Material};
use vstd::prelude::*;

verus! {

#[derive(Debug)]
pub struct Plane {
    pub transform: Matrix,
    pub material: Material,
}

/// The distance at which a local-space ray meets the x-z plane: none
/// when the ray's `y` direction is within tolerance of zero (parallel
/// or coplanar), else the single root `-origin.y / dir.y`.
pub open spec fn plane_hits(origin: T4, dir: T4) -> Option<Seq<int>> {
    if feq(dir.1, 0) {
        None
    } else {
        Some(seq![s_div(-origin.1, dir.1)])
    }
}

/// The world-space normal of a plane before normalization: the local
/// `(0,1,0)` carried through the transpose of the inverse transform,
/// its `w` tag forced back to zero.
pub open spec fn plane_prenormal(p: Plane) -> T4 {
    let wn = m4_invt_apply(p.transform, (0int, SCALE as int, 0int, 0int));
    (wn.0, wn.1, wn.2, 0int)
}

/// The world-space normal of a plane at any point: the local `(0,1,0)`
/// carried through the transpose of the inverse and normalized.
pub open spec fn plane_normal_spec(p: Plane, world_point: T4) -> T4 {
    sp_normalize_safe(plane_prenormal(p))
}

impl Plane {
    pub fn new(transform: Matrix, material: Material) -> (r: Self)
        ensures
            r.transform == transform,
            r.material == material,
    {
        Self { transform, material }
    }

    pub fn get_transform(&self) -> (r: Matrix)
        ensures
            r == self.transform,
    {
        self.transform
    }

    pub fn set_transform(&mut self, transform: Matrix)
        ensures
            *final(self) == (Plane { transform, ..*old(self) }),
    {
        self.transform = transform;
    }

    pub fn get_material(&self) -> (r: &Material)
        ensures
            *r == self.material,
    {
        &self.material
    }

    pub fn set_material(&mut self, material: Material)
        ensures
            *final(self) == (Plane { material, ..*old(self) }),
    {
        self.material = material;
    }

    /// The single intersection of a local-space ray with the x-z plane,
    /// or none when the ray runs parallel to it.
    pub fn local_intersect(&self, ray: Ray) -> (r: Option<Vec<Scalar>>)
        ensures
            match plane_hits(t4(ray.origin), t4(ray.direction)) {
                Some(ts) => {
                    &&& r is Some
                    &&& r->Some_0@.len() == ts.len()
                    &&& forall|k: int| 0 <= k < ts.len() ==> #[trigger] r->Some_0@[k]@ == ts[k]
                },
                None => r is None,
            },
    {
        if crate::utils::float_equal(ray.direction.y, Scalar::zero()) {
            return None;
        }
        let distance = ray.origin.y.neg().div(ray.direction.y);
        let mut roots: Vec<Scalar> = Vec::new();
        roots.push(distance);
        Some(roots)
    }

    /// The local normal: always straight up from the x-z plane.
    pub fn local_normal_at(&self, _point: Point) -> (r: Vector)
        ensures
            t4(r) == (0int, SCALE as int, 0int, 0int),
    {
        let z = Scalar::zero();
        Vector::new_vector(z, Scalar::one(), z)
    }

    /// The distance at which a world-space ray meets this plane; with a
    /// non-invertible transform the plane is unhittable.
    pub fn intersect(&self, ray: Ray) -> (r: Option<Vec<Scalar>>)
        ensures
            match plane_shape_hits(*self, t4(ray.origin), t4(ray.direction)) {
                Some(ts) => {
                    &&& r is Some
                    &&& r->Some_0@.len() == ts.len()
                    &&& forall|k: int| 0 <= k < ts.len() ==> #[trigger] r->Some_0@[k]@ == ts[k]
                },
                None => r is None,
            },
    {
        let inv = self.transform.inverse();
        match inv {
            Some(mi) => {
                proof {
                    lemma_inverse_apply(self.transform, mi, t4(ray.origin));
                    lemma_inverse_apply(self.transform, mi, t4(ray.direction));
                }
                let transformed_ray = ray.transform(&mi);
                self.local_intersect(transformed_ray)
            },
            None => None,
        }
    }

    /// The world-space surface normal at a world-space point.
    pub fn normal_at(&self, point: Point) -> (r: Vector)
        requires
            det4_of(self.transform) != 0,
        ensures
            t4(r) == plane_normal_spec(*self, t4(point)),
            r.w@ == 0,
            sp_normalizable(plane_prenormal(*self)) ==> feq(sp_mag(t4(r)), SCALE as int),
    {
        let inv = self.transform.inverse();
        match inv {
            Some(mi) => {
                let object_normal = self.local_normal_at(point);
                let trans = mi.transpose();
                proof {
                    lemma_inverse_transpose_apply(self.transform, trans, t4(object_normal));
                }
                let world_normal = trans.coords_mul(object_normal);
                Vector::new_vector(world_normal.x, world_normal.y, world_normal.z)
                    .normalize_or_zero()
            },
            None => {
                let z = Scalar::zero();
                Vector::new_vector(z, z, z)
            },
        }
    }

    /// The material color at a world-space point, sampled in object
    /// space.
    pub fn color_at(&self, point: Point) -> (r: Color)
        requires
            det4_of(self.transform) != 0,
            material_wf(self.material),
        ensures
            c3(r) == material_color_at(self.material, m4_inv_apply(self.transform, t4(point))),
    {
        let inv = self.transform.inverse();
        match inv {
            Some(mi) => {
                proof {
                    lemma_inverse_apply(self.transform, mi, t4(point));
                }
                let object_space_point = mi.coords_mul(point);
                self.material.color_at(object_space_point)
            },
            None => self.material.color_at(point),
        }
    }
}

/// `plane_hits` behind the plane's own transform: the world ray is
/// carried to local space first.
pub open spec fn plane_shape_hits(p: Plane, origin: T4, dir: T4) -> Option<Seq<int>> {
    if det4_of(p.transform) == 0 {
        None
    } else {
        plane_hits(m4_inv_apply(p.transform, origin), m4_inv_apply(p.transform, dir))
    }
}

impl Default for Plane {
    /// The x-z plane through the origin with the default material.
    fn default() -> (r: Self)
        ensures
            crate::matrices::is_identity(r.transform),
            is_default_material(r.material),
    {
        Self { transform: Matrix::new_identity(), material: Material::default() }
    }
}

} // verus!
