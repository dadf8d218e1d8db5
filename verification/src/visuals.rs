//! The visual side of the renderer: colors, patterns, materials and the
//! Phong lighting computation.

mod color;
mod material;
mod patterns;
mod shading;

pub use color::{c3, cp_add, cp_mul, cp_scale, cp_scale_div, cp_sub, c3_feq, Color, C3};
pub use material::{is_default_material, material_color_at, material_wf, patterns_sum, Material};
pub use patterns::{
    pattern_color_spec, pattern_transform, pattern_with_transform, CheckerPattern,
    GradientPattern, Pattern, PerturbPattern, RingPattern, StripePattern,
};
pub use shading::{lighting, lighting_spec, phong_spec, Light};
