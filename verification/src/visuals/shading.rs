//! Point lights and the Phong lighting computation on a bare material
//! color.

use super::color::{c3, cp_add, cp_mul, cp_scale, Color, C3};
use super::material::Material;
use crate::base_types::{
    is_point, is_vector, sp_dot, sp_neg, sp_normalize_safe, sp_reflect, sp_sub, t4, Point, Vector,
    T4,
};
use crate::scalar::s_pow;
use vstd::prelude::*;

verus! {

#[derive(Clone, Copy, Debug, PartialEq, Eq, Structural)]
pub struct Light {
    pub position: Point,
    pub intensity: Color,
}

impl Light {
    pub fn new(position: Point, intensity: Color) -> (r: Self)
        ensures
            r.position == position,
            r.intensity == intensity,
    {
        Self { position, intensity }
    }
}

/// The Phong sum for one light on a surface sample `surface`: ambient
/// always contributes; diffuse and specular are black when the point is
/// shadowed or the light is behind the surface, and specular also when
/// the reflection points away from the eye.
pub open spec fn phong_spec(
    surface: C3,
    m: Material,
    light: Light,
    pos: T4,
    eye: T4,
    normal: T4,
    in_shadow: bool,
) -> C3 {
    let effective = cp_mul(surface, c3(light.intensity));
    let light_dir = sp_normalize_safe(sp_sub(t4(light.position), pos));
    let ambient = cp_scale(effective, m.ambient@);
    let ldn = sp_dot(light_dir, normal);
    let diffuse = if ldn < 0 || in_shadow {
        (0int, 0int, 0int)
    } else {
        cp_scale(cp_scale(effective, m.diffuse@), ldn)
    };
    let specular = if ldn < 0 || in_shadow {
        (0int, 0int, 0int)
    } else {
        let reflection = sp_reflect(sp_neg(light_dir), normal);
        let rde = sp_dot(reflection, eye);
        if rde < 0 {
            (0int, 0int, 0int)
        } else {
            cp_scale(cp_scale(c3(light.intensity), m.specular@), s_pow(rde, m.shininess as nat))
        }
    };
    cp_add(cp_add(ambient, diffuse), specular)
}

/// The Phong sum for one light on the material's own base color.
pub open spec fn lighting_spec(
    m: Material,
    light: Light,
    pos: T4,
    eye: T4,
    normal: T4,
    in_shadow: bool,
) -> C3 {
    phong_spec(c3(m.color), m, light, pos, eye, normal, in_shadow)
}

/// Phong lighting of a bare material color under one point light.
pub fn lighting(
    material: &Material,
    point_light: Light,
    position: Point,
    eye_normal: Vector,
    surface_normal: Vector,
    is_in_shadow: bool,
) -> (r: Color)
    requires
        is_point(point_light.position),
        is_point(position),
        is_vector(surface_normal),
    ensures
        c3(r) == lighting_spec(
            *material,
            point_light,
            t4(position),
            t4(eye_normal),
            t4(surface_normal),
            is_in_shadow,
        ),
{
    proof {
        reveal(phong_spec);
    }
    let effective_color = material.color.mul(point_light.intensity);
    let light_direction = point_light.position.sub(position).normalize_or_zero();
    let ambient = effective_color.mul_scalar(material.ambient);
    let mut diffuse = Color::black();
    let mut specular = Color::black();
    let light_dot_normal = light_direction.dot(surface_normal);
    if !(light_dot_normal.is_neg() || is_in_shadow) {
        diffuse = effective_color.mul_scalar(material.diffuse).mul_scalar(light_dot_normal);
        let light_reflection = light_direction.neg().reflect(surface_normal);
        let reflection_dot_eye = light_reflection.dot(eye_normal);
        if !reflection_dot_eye.is_neg() {
            let factor = reflection_dot_eye.pow(material.shininess);
            specular = point_light.intensity.mul_scalar(material.specular).mul_scalar(factor);
        }
    }
    ambient.add(diffuse).add(specular)
}

} // verus!
