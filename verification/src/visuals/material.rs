//! Materials: a base color, an ordered list of patterns, and the Phong
//! shading coefficients.

use super::color::{c3, cp_add, cp_scale_div, Color, C3};
use super::patterns::{pattern_color_spec, pattern_transform, Pattern};
use crate::base_types::{Point, T4};
use crate::matrices::{det4_of, m4_inv_apply};
use crate::scalar::{sat, Scalar, SCALE};
use vstd::prelude::*;

verus! {

#[derive(Debug)]
pub struct Material {
    pub color: Color,
    pub patterns: Vec<Pattern>,
    pub ambient: Scalar,
    pub diffuse: Scalar,
    pub specular: Scalar,
    pub shininess: u32,
    pub reflective: Scalar,
    pub transparency: Scalar,
    pub refractive_index: Scalar,
}

/// The customary default material: white, patternless, ambient one
/// tenth, diffuse and specular nine tenths, shininess two hundred, no
/// reflection or transparency, refractive index one.
pub open spec fn is_default_material(m: Material) -> bool {
    &&& c3(m.color) == (SCALE as int, SCALE as int, SCALE as int)
    &&& m.patterns@.len() == 0
    &&& m.ambient@ == SCALE as int / 10
    &&& m.diffuse@ == SCALE as int * 9 / 10
    &&& m.specular@ == SCALE as int * 9 / 10
    &&& m.shininess == 200
    &&& m.reflective@ == 0
    &&& m.transparency@ == 0
    &&& m.refractive_index@ == SCALE
}

/// A material is well formed when each of its patterns samples through
/// an invertible transform.
pub open spec fn material_wf(m: Material) -> bool {
    forall|k: int|
        0 <= k < m.patterns@.len() ==> det4_of(pattern_transform(#[trigger] m.patterns@[k])) != 0
}

/// The sum of the first `k` patterns' colors, each sampled at the point
/// carried into its own pattern space.
pub open spec fn patterns_sum(ps: Seq<Pattern>, point: T4, k: int) -> C3
    decreases k,
{
    if k <= 0 {
        (0int, 0int, 0int)
    } else {
        cp_add(
            patterns_sum(ps, point, k - 1),
            pattern_color_spec(
                ps[k - 1],
                m4_inv_apply(pattern_transform(ps[k - 1]), point),
            ),
        )
    }
}

/// The color of a material at a point in object space: the base color
/// when it has no patterns, else the arithmetic mean of the patterns'
/// samples.
pub open spec fn material_color_at(m: Material, point: T4) -> C3 {
    let n = m.patterns@.len() as int;
    if n == 0 {
        c3(m.color)
    } else {
        cp_scale_div(patterns_sum(m.patterns@, point, n), sat(n * SCALE))
    }
}

impl Material {
    #[allow(clippy::too_many_arguments)]
    pub fn new(
        color: Color,
        patterns: Vec<Pattern>,
        ambient: Scalar,
        diffuse: Scalar,
        specular: Scalar,
        shininess: u32,
        reflective: Scalar,
        transparency: Scalar,
        refractive_index: Scalar,
    ) -> (r: Self)
        ensures
            r.color == color,
            r.patterns == patterns,
            r.ambient == ambient,
            r.diffuse == diffuse,
            r.specular == specular,
            r.shininess == shininess,
            r.reflective == reflective,
            r.transparency == transparency,
            r.refractive_index == refractive_index,
    {
        Self {
            color,
            patterns,
            ambient,
            diffuse,
            specular,
            shininess,
            reflective,
            transparency,
            refractive_index,
        }
    }

    /// The color at a point in object space: the patterns are sampled
    /// through the inverses of their own transforms and blended by
    /// arithmetic mean; without patterns the base color stands.
    pub fn color_at(&self, point: Point) -> (r: Color)
        requires
            material_wf(*self),
        ensures
            c3(r) == material_color_at(*self, crate::base_types::t4(point)),
    {
        let num_of_patterns = self.patterns.len();
        if num_of_patterns > 0 {
            let mut color = Color::black();
            let mut k: usize = 0;
            while k < num_of_patterns
                invariant
                    k <= num_of_patterns,
                    num_of_patterns == self.patterns@.len(),
                    material_wf(*self),
                    c3(color) == patterns_sum(
                        self.patterns@,
                        crate::base_types::t4(point),
                        k as int,
                    ),
                decreases num_of_patterns - k,
            {
                let pattern = &self.patterns[k];
                let inv = pattern.get_transform().inverse();
                let pattern_space_point = match inv {
                    Some(mi) => {
                        proof {
                            crate::matrices::lemma_inverse_apply(
                                pattern_transform(self.patterns@[k as int]),
                                mi,
                                crate::base_types::t4(point),
                            );
                        }
                        mi.coords_mul(point)
                    },
                    None => point,
                };
                color = color.add(pattern.color_at(pattern_space_point));
                k = k + 1;
            }
            let divisor = Scalar::from_usize(num_of_patterns);
            proof {
                assert(sat(num_of_patterns as int * SCALE) >= SCALE);
            }
            return color.div_scalar(divisor);
        }
        self.color
    }
}

impl Material {
    /// A deep copy: the coefficients are copied and every pattern is
    /// cloned, so the same material definition can be reused across
    /// objects.
    pub fn duplicate(&self) -> (r: Material)
        ensures
            r.color == self.color,
            r.patterns@ == self.patterns@,
            r.ambient == self.ambient,
            r.diffuse == self.diffuse,
            r.specular == self.specular,
            r.shininess == self.shininess,
            r.reflective == self.reflective,
            r.transparency == self.transparency,
            r.refractive_index == self.refractive_index,
    {
        let mut patterns: Vec<Pattern> = Vec::new();
        let mut k: usize = 0;
        let n = self.patterns.len();
        while k < n
            invariant
                k <= n,
                n == self.patterns@.len(),
                patterns@ == self.patterns@.subrange(0, k as int),
            decreases n - k,
        {
            patterns.push(self.patterns[k].clone_pattern());
            proof {
                assert(self.patterns@.subrange(0, k + 1) =~= self.patterns@.subrange(
                    0,
                    k as int,
                ).push(self.patterns@[k as int]));
            }
            k = k + 1;
        }
        proof {
            assert(self.patterns@.subrange(0, n as int) =~= self.patterns@);
        }
        Material {
            color: self.color,
            patterns,
            ambient: self.ambient,
            diffuse: self.diffuse,
            specular: self.specular,
            shininess: self.shininess,
            reflective: self.reflective,
            transparency: self.transparency,
            refractive_index: self.refractive_index,
        }
    }
}

impl Default for Material {
    /// White, patternless, with the customary shading coefficients:
    /// ambient one tenth, diffuse and specular nine tenths, shininess
    /// two hundred, and no reflection or transparency.
    fn default() -> (r: Self)
        ensures
            is_default_material(r),
    {
        let one = Scalar::one();
        Self {
            color: Color(one, one, one),
            patterns: Vec::new(),
            ambient: Scalar::from_ratio(1, 10),
            diffuse: Scalar::from_ratio(9, 10),
            specular: Scalar::from_ratio(9, 10),
            shininess: 200,
            reflective: Scalar::zero(),
            transparency: Scalar::zero(),
            refractive_index: one,
        }
    }
}

} // verus!
