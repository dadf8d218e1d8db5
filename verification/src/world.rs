//! The scene: geometric objects, lights, the world that holds them, and
//! the camera that looks at them.

mod camera;
mod objects;
mod world;

pub use camera::{
    camera_half_height, camera_half_width, camera_pixel_size, camera_ray_delta, camera_ray_dir,
    camera_ray_origin, Camera,
};
pub use objects::{
    lemma_tangent_equal_roots, plane_hits, plane_normal_spec, plane_prenormal, plane_shape_hits,
    shape_color_at, shape_hits, shape_material, shape_normal, shape_prenormal, shape_transform,
    shape_wf, shape_with_material, shape_with_transform, sphere_disc, sphere_hits,
    sphere_normal_spec, sphere_prenormal, sphere_qa, sphere_qb, sphere_qc, sphere_shape_hits,
    sphere_t1, sphere_t2, Light, Plane, Sphere, WorldShape,
};
pub use world::{
    color_ok, depth_val, entries_hittable, hit_dist, hit_ok, hit_shade_ok, hit_witness,
    is_hit_dist, is_shadowed_spec, lights_sum, ms_has_nonneg, object_hits_ms, reflect_ok,
    shade_ok, world_hits_ms, world_ms, world_wf, World, MAX_REFLECT_DEPTH,
};
