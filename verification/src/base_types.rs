//! The geometric base types: homogeneous coordinates, points, vectors,
//! rays and ray–object intersections.

mod coords;
mod intersection;
mod point;
mod ray;
mod vector;

pub use coords::{
    feq, is_point, is_vector, sp_add, sp_add_scalar, sp_cross, sp_dot, sp_mag, sp_neg,
    sp_normalizable, sp_normalize, sp_normalize_safe, sp_reflect, sp_scale, sp_scale_div, sp_sub, t4, t4_feq, Coordinates, T4,
};
pub use intersection::{
    combine_intersections, details_wf, hit_index, inter_view, lemma_map_multiset,
    prepare_computations, Intersection, IntersectionDetails,
};
pub use point::Point;
pub use ray::{ray_wf, Ray};
pub use vector::Vector;
