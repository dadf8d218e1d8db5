//! Pattern-aware Phong lighting: the surface color is sampled from the
//! object's material at the lit point.

use super::{shape_color_at, shape_transform, shape_wf, WorldShape};
use crate::base_types::{is_point, is_vector, t4, Point, Vector};
use crate::matrices::det4_of;
use crate::visuals::{c3, phong_spec, Color};
use vstd::prelude::*;

pub use crate::visuals::Light;

verus! {

impl Light {
    /// The Phong sum for this light on an object's sampled surface
    /// color.
    pub fn lighting(
        self,
        object: &WorldShape,
        position: Point,
        eye_normal: Vector,
        surface_normal: Vector,
        is_in_shadow: bool,
    ) -> (r: Color)
        requires
            det4_of(shape_transform(*object)) != 0,
            shape_wf(*object),
            is_point(self.position),
            is_point(position),
            is_vector(surface_normal),
        ensures
            c3(r) == phong_spec(
                shape_color_at(*object, t4(position)),
                crate::world::shape_material(*object),
                self,
                t4(position),
                t4(eye_normal),
                t4(surface_normal),
                is_in_shadow,
            ),
    {
        proof {
            reveal(crate::visuals::phong_spec);
        }
        let effective_color = object.color_at(position).mul(self.intensity);
        let material = object.get_material();
        let light_direction = self.position.sub(position).normalize_or_zero();
        let ambient = effective_color.mul_scalar(material.ambient);
        let mut diffuse = Color::black();
        let mut specular = Color::black();
        let light_dot_normal = light_direction.dot(surface_normal);
        if !(is_in_shadow || light_dot_normal.is_neg()) {
            diffuse = effective_color.mul_scalar(material.diffuse).mul_scalar(light_dot_normal);
            let light_reflection = light_direction.neg().reflect(surface_normal);
            let reflection_dot_eye = light_reflection.dot(eye_normal);
            if reflection_dot_eye.is_neg() {
                specular = Color::black();
            } else {
                let factor = reflection_dot_eye.pow(material.shininess);
                specular = self.intensity.mul_scalar(material.specular).mul_scalar(factor);
            }
        }
        ambient.add(diffuse).add(specular)
    }
}

} // verus!
