//! The scene container: all objects and lights, ray intersection across
//! the whole scene, shadow testing, and the recursive shading entry
//! point.

use super::objects::{
    shape_color_at, shape_hits, shape_material, shape_normal, shape_transform, shape_wf, Light,
    Plane, Sphere, WorldShape,
};
use crate::base_types::{
    combine_intersections, details_wf, hit_index, inter_view, is_point, lemma_map_multiset,
    prepare_computations, ray_wf, sp_add, sp_dot, sp_mag, sp_neg, sp_normalize_safe, sp_reflect,
    sp_scale, sp_sub, t4, Intersection, IntersectionDetails, Point, Ray, T4,
};
use crate::matrices::Matrix;
use crate::scalar::{Scalar, EPSILON_RAW, SCALE};
use crate::utils::sorted_by_distance;
use crate::visuals::{c3, cp_add, cp_scale, phong_spec, Color, Material, C3};
use vstd::multiset::Multiset;
use vstd::prelude::*;

verus! {

/// The number of reflection bounces allowed when the caller does not
/// give a budget.
pub const MAX_REFLECT_DEPTH: usize = 5;

pub struct World {
    pub objects: Vec<WorldShape>,
    pub lights: Vec<Light>,
}

/// A well-formed world: every object is well formed and every light
/// sits at a point.
pub open spec fn world_wf(w: World) -> bool {
    &&& forall|k: int| 0 <= k < w.objects@.len() ==> shape_wf(#[trigger] w.objects@[k])
    &&& forall|k: int| 0 <= k < w.lights@.len() ==> is_point((#[trigger] w.lights@[k]).position)
}

/// The pairs (distance, object index) at which the ray meets the first
/// `k` objects of the scene.
pub open spec fn world_hits_ms(objects: Seq<WorldShape>, origin: T4, dir: T4, k: int) -> Multiset<
    (int, int),
>
    decreases k,
{
    if k <= 0 {
        Multiset::empty()
    } else {
        world_hits_ms(objects, origin, dir, k - 1).add(
            object_hits_ms(objects[k - 1], k - 1, origin, dir),
        )
    }
}

/// The pairs contributed by one object, tagged with its index.
pub open spec fn object_hits_ms(s: WorldShape, idx: int, origin: T4, dir: T4) -> Multiset<
    (int, int),
> {
    match shape_hits(s, origin, dir) {
        Some(ts) => ts.map_values(|t: int| (t, idx)).to_multiset(),
        None => Multiset::empty(),
    }
}

/// Some object is met at a non-negative distance.
pub open spec fn ms_has_nonneg(ms: Multiset<(int, int)>) -> bool {
    exists|p: (int, int)| ms.contains(p) && p.0 >= 0
}

/// `d` is the smallest non-negative distance in the pair multiset.
pub open spec fn is_hit_dist(ms: Multiset<(int, int)>, d: int) -> bool {
    &&& d >= 0
    &&& exists|p: (int, int)| ms.contains(p) && p.0 == d
    &&& forall|q: (int, int)| ms.contains(q) && q.0 >= 0 ==> d <= q.0
}

/// The smallest non-negative distance in the pair multiset (meaningful
/// when `ms_has_nonneg` holds).
pub open spec fn hit_dist(ms: Multiset<(int, int)>) -> int {
    choose|d: int| is_hit_dist(ms, d)
}

/// The whole scene's pair multiset for one ray.
pub open spec fn world_ms(w: World, origin: T4, dir: T4) -> Multiset<(int, int)> {
    world_hits_ms(w.objects@, origin, dir, w.objects@.len() as int)
}

/// The point is shadowed with respect to the light exactly when an
/// object lies strictly between the point and the light: the shadow ray
/// from the point toward the light meets something at a non-negative
/// distance smaller than the point-to-light distance.
#[verifier::opaque]
pub open spec fn is_shadowed_spec(w: World, point: T4, light: Light) -> bool {
    let dist = sp_mag(sp_sub(t4(light.position), point));
    let sdir = sp_normalize_safe(sp_sub(t4(light.position), point));
    let ms = world_hits_ms(w.objects@, point, sdir, w.objects@.len() as int);
    exists|p: (int, int)| ms.contains(p) && 0 <= p.0 < dist
}

/// The summed Phong contributions of the first `k` lights on the object
/// at `idx`, each with its own shadow test at the over point.
pub open spec fn lights_sum(
    w: World,
    idx: int,
    pos: T4,
    eye: T4,
    normal: T4,
    over: T4,
    k: int,
) -> C3
    decreases k,
{
    if k <= 0 {
        (0int, 0int, 0int)
    } else {
        cp_add(
            lights_sum(w, idx, pos, eye, normal, over, k - 1),
            phong_spec(
                shape_color_at(w.objects@[idx], pos),
                shape_material(w.objects@[idx]),
                w.lights@[k - 1],
                pos,
                eye,
                normal,
                is_shadowed_spec(w, over, w.lights@[k - 1]),
            ),
        )
    }
}

/// The reflected contribution is valid: black when the material does not
/// reflect or the depth budget is spent, else a recursively valid scene
/// color along the reflection ray, scaled by the reflective coefficient.
pub open spec fn reflect_ok(
    w: World,
    over: T4,
    rvec: T4,
    reflective: int,
    depth: nat,
    rc: C3,
) -> bool
    decreases depth, 0int,
{
    if reflective == 0 || depth == 0 {
        rc == (0int, 0int, 0int)
    } else {
        exists|rc0: C3|
            #![auto]
            color_ok(w, over, rvec, (depth - 1) as nat, rc0) && rc == cp_scale(rc0, reflective)
    }
}

/// The shading at a hit, described by its derived inputs, is valid for
/// color `c`: the per-light Phong sums plus a valid reflected
/// contribution.
pub open spec fn shade_ok(
    w: World,
    idx: int,
    pos: T4,
    eye: T4,
    normal: T4,
    over: T4,
    rvec: T4,
    depth: nat,
    c: C3,
) -> bool
    decreases depth, 1int,
{
    exists|rc: C3|
        #![auto]
        reflect_ok(w, over, rvec, shape_material(w.objects@[idx]).reflective@, depth, rc) && c
            == cp_add(lights_sum(w, idx, pos, eye, normal, over, w.lights@.len() as int), rc)
}

/// The shading of the hit of the ray on object `idx` at distance `t`
/// is valid for `c`: the hit point, eye vector, possibly flipped
/// normal, over point and reflection vector are derived from the ray,
/// and the Phong-plus-reflection sum holds of them.
pub open spec fn hit_shade_ok(
    w: World,
    idx: int,
    t: int,
    origin: T4,
    dir: T4,
    depth: nat,
    c: C3,
) -> bool
    decreases depth, 2int,
{
    let pos = sp_add(origin, sp_scale(dir, t));
    let n0 = shape_normal(w.objects@[idx], pos);
    let eye = sp_neg(dir);
    let inside = sp_dot(eye, n0) < 0;
    let normal = if inside {
        sp_neg(n0)
    } else {
        n0
    };
    let over = sp_add(pos, sp_scale(normal, EPSILON_RAW as int));
    let rvec = sp_reflect(dir, normal);
    shade_ok(w, idx, pos, eye, normal, over, rvec, depth, c)
}

/// Trigger marker: names the object index a hit existential speaks of.
pub open spec fn hit_witness(idx: int) -> bool {
    true
}

/// Object `idx` realizes the first hit of the ray and its shading is
/// valid for `c`.
pub open spec fn hit_ok(w: World, idx: int, origin: T4, dir: T4, depth: nat, c: C3) -> bool
    decreases depth, 3int,
{
    &&& 0 <= idx < w.objects@.len()
    &&& world_ms(w, origin, dir).contains((hit_dist(world_ms(w, origin, dir)), idx))
    &&& hit_shade_ok(w, idx, hit_dist(world_ms(w, origin, dir)), origin, dir, depth, c)
}

/// The scene color along a ray is valid for `c`: black when nothing is
/// met at a non-negative distance, else the shading of some object met
/// at the smallest non-negative distance.
pub open spec fn color_ok(w: World, origin: T4, dir: T4, depth: nat, c: C3) -> bool
    decreases depth, 4int,
{
    if !ms_has_nonneg(world_ms(w, origin, dir)) {
        c == (0int, 0int, 0int)
    } else {
        exists|idx: int| #[trigger] hit_witness(idx) && hit_ok(w, idx, origin, dir, depth, c)
    }
}

/// Introduction rule for `hit_shade_ok`: the derived shading inputs
/// match the ray, so a valid shading of them is a valid shading of the
/// hit.
proof fn lemma_hit_shade_intro(
    w: World,
    idx: int,
    t: int,
    origin: T4,
    dir: T4,
    depth: nat,
    c: C3,
    pos: T4,
    eye: T4,
    normal: T4,
    over: T4,
    rvec: T4,
    inside: bool,
)
    requires
        pos == sp_add(origin, sp_scale(dir, t)),
        eye == sp_neg(dir),
        inside == (sp_dot(eye, shape_normal(w.objects@[idx], pos)) < 0),
        normal == if inside {
            sp_neg(shape_normal(w.objects@[idx], pos))
        } else {
            shape_normal(w.objects@[idx], pos)
        },
        over == sp_add(pos, sp_scale(normal, EPSILON_RAW as int)),
        rvec == sp_reflect(dir, normal),
        shade_ok(w, idx, pos, eye, normal, over, rvec, depth, c),
    ensures
        hit_shade_ok(w, idx, t, origin, dir, depth, c),
{
}

/// A valid shading of the first hit of a sorted intersection list is a
/// valid scene color for the ray.
#[verifier::rlimit(100)]
#[verifier::spinoff_prover]
proof fn lemma_color_ok_hit(
    w: World,
    origin: T4,
    dir: T4,
    depth: nat,
    c: C3,
    s: Seq<Intersection>,
    i: int,
    comps: IntersectionDetails,
)
    requires
        sorted_by_distance(s),
        s.map_values(|x: Intersection| inter_view(x)).to_multiset() == world_hits_ms(
            w.objects@,
            origin,
            dir,
            w.objects@.len() as int,
        ),
        0 <= i < s.len(),
        s[i].distance@ >= 0,
        forall|k: int| 0 <= k < i ==> s[k].distance@ < 0,
        comps.intersection == s[i],
        comps.intersection.object_index < w.objects@.len(),
        t4(comps.point) == sp_add(origin, sp_scale(dir, comps.intersection.distance@)),
        t4(comps.eye_normal) == sp_neg(dir),
        comps.is_inside == (sp_dot(
            sp_neg(dir),
            shape_normal(w.objects@[comps.intersection.object_index as int], t4(comps.point)),
        ) < 0),
        t4(comps.surface_normal) == if comps.is_inside {
            sp_neg(
                shape_normal(w.objects@[comps.intersection.object_index as int], t4(comps.point)),
            )
        } else {
            shape_normal(w.objects@[comps.intersection.object_index as int], t4(comps.point))
        },
        t4(comps.over_point) == sp_add(
            t4(comps.point),
            sp_scale(t4(comps.surface_normal), EPSILON_RAW as int),
        ),
        t4(comps.reflect_vector) == sp_reflect(dir, t4(comps.surface_normal)),
        shade_ok(
            w,
            comps.intersection.object_index as int,
            t4(comps.point),
            t4(comps.eye_normal),
            t4(comps.surface_normal),
            t4(comps.over_point),
            t4(comps.reflect_vector),
            depth,
            c,
        ),
    ensures
        color_ok(w, origin, dir, depth, c),
{
    let ms = world_hits_ms(w.objects@, origin, dir, w.objects@.len() as int);
    let idx = comps.intersection.object_index as int;
    lemma_first_nonneg_hit(s, ms, i);
    lemma_hit_shade_intro(
        w,
        idx,
        hit_dist(ms),
        origin,
        dir,
        depth,
        c,
        t4(comps.point),
        t4(comps.eye_normal),
        t4(comps.surface_normal),
        t4(comps.over_point),
        t4(comps.reflect_vector),
        comps.is_inside,
    );
    assert(ms.contains((hit_dist(ms), idx)));
    assert(ms_has_nonneg(ms));
    assert(hit_ok(w, idx, origin, dir, depth, c));
    assert(hit_witness(idx));
    assert(color_ok(w, origin, dir, depth, c));
}

/// A list with no forward hit makes the scene color black.
proof fn lemma_color_ok_miss(w: World, origin: T4, dir: T4, depth: nat, s: Seq<Intersection>)
    requires
        s.map_values(|x: Intersection| inter_view(x)).to_multiset() == world_hits_ms(
            w.objects@,
            origin,
            dir,
            w.objects@.len() as int,
        ),
        forall|k: int| 0 <= k < s.len() ==> s[k].distance@ < 0,
    ensures
        color_ok(w, origin, dir, depth, (0int, 0int, 0int)),
{
    lemma_all_neg(s, world_hits_ms(w.objects@, origin, dir, w.objects@.len() as int));
}

/// The smallest non-negative distance is unique.
proof fn lemma_hit_dist_unique(ms: Multiset<(int, int)>, d1: int, d2: int)
    requires
        is_hit_dist(ms, d1),
        is_hit_dist(ms, d2),
    ensures
        d1 == d2,
{
    let p1 = choose|p: (int, int)| ms.contains(p) && p.0 == d1;
    let p2 = choose|p: (int, int)| ms.contains(p) && p.0 == d2;
    assert(d1 <= p2.0);
    assert(d2 <= p1.0);
}

/// The first non-negative entry of a sorted intersection list realizes
/// the smallest non-negative distance of its pair multiset.
proof fn lemma_first_nonneg_hit(s: Seq<Intersection>, ms: Multiset<(int, int)>, i: int)
    requires
        sorted_by_distance(s),
        s.map_values(|x: Intersection| inter_view(x)).to_multiset() == ms,
        0 <= i < s.len(),
        s[i].distance@ >= 0,
        forall|k: int| 0 <= k < i ==> s[k].distance@ < 0,
    ensures
        ms.contains(inter_view(s[i])),
        is_hit_dist(ms, s[i].distance@),
        hit_dist(ms) == s[i].distance@,
        ms_has_nonneg(ms),
{
    broadcast use vstd::seq_lib::group_to_multiset_ensures;

    let f = |x: Intersection| inter_view(x);
    let mapped = s.map_values(f);
    assert(mapped[i] == inter_view(s[i]));
    assert(mapped.contains(inter_view(s[i])));
    assert(ms.contains(inter_view(s[i])));
    assert(inter_view(s[i]).0 == s[i].distance@);
    assert forall|q: (int, int)| ms.contains(q) && q.0 >= 0 implies s[i].distance@ <= q.0 by {
        assert(mapped.contains(q));
        let k = choose|k: int| 0 <= k < mapped.len() && mapped[k] == q;
        assert(q == inter_view(s[k]));
        assert(s[k].distance@ >= 0);
        assert(k >= i);
        if k > i {
            assert(s[i].distance@ <= s[k].distance@);
        }
    }
    assert(is_hit_dist(ms, s[i].distance@));
    lemma_hit_dist_unique(ms, hit_dist(ms), s[i].distance@);
}

/// When every entry of an intersection list is negative, its pair
/// multiset holds nothing non-negative.
proof fn lemma_all_neg(s: Seq<Intersection>, ms: Multiset<(int, int)>)
    requires
        s.map_values(|x: Intersection| inter_view(x)).to_multiset() == ms,
        forall|k: int| 0 <= k < s.len() ==> s[k].distance@ < 0,
    ensures
        !ms_has_nonneg(ms),
        forall|p: (int, int)| ms.contains(p) ==> p.0 < 0,
{
    broadcast use vstd::seq_lib::group_to_multiset_ensures;

    let f = |x: Intersection| inter_view(x);
    let mapped = s.map_values(f);
    assert forall|p: (int, int)| ms.contains(p) implies p.0 < 0 by {
        assert(mapped.contains(p));
        let k = choose|k: int| 0 <= k < mapped.len() && mapped[k] == p;
        assert(p == inter_view(s[k]));
    }
}

/// Every intersection of the list names an object the ray can hit.
pub open spec fn entries_hittable(
    s: Seq<Intersection>,
    objects: Seq<WorldShape>,
    origin: T4,
    dir: T4,
) -> bool {
    forall|k: int|
        0 <= k < s.len() ==> (#[trigger] s[k]).object_index < objects.len() && shape_hits(
            objects[s[k].object_index as int],
            origin,
            dir,
        ) is Some && crate::matrices::det4_of(
            super::objects::shape_transform(objects[s[k].object_index as int]),
        ) != 0
}

impl World {
    /// An empty scene under one white light above and behind the
    /// origin.
    pub fn new() -> (r: Self)
        ensures
            r.objects@.len() == 0,
            r.lights@.len() == 1,
            t4(r.lights@[0].position) == (
                -10 * SCALE as int,
                10 * SCALE as int,
                -10 * SCALE as int,
                SCALE as int,
            ),
            c3(r.lights@[0].intensity) == (SCALE as int, SCALE as int, SCALE as int),
            world_wf(r),
    {
        let ten = Scalar::from_int(10);
        let one = Scalar::one();
        let mut lights: Vec<Light> = Vec::new();
        lights.push(
            Light::new(Point::new_point(ten.neg(), ten, ten.neg()), Color::new(one, one, one)),
        );
        World { objects: Vec::new(), lights }
    }

    /// Append an object to the scene.
    pub fn add_object(&mut self, object: WorldShape)
        ensures
            final(self).objects@ == old(self).objects@.push(object),
            final(self).lights == old(self).lights,
    {
        self.objects.push(object);
    }

    /// Every object's intersections with the ray, merged into one list
    /// ascending by distance; each entry names its object by index.
    pub fn intersect(&self, ray: Ray) -> (r: Vec<Intersection>)
        requires
            ray_wf(ray),
            world_wf(*self),
        ensures
            sorted_by_distance(r@),
            r@.map_values(|x: Intersection| inter_view(x)).to_multiset() == world_hits_ms(
                self.objects@,
                t4(ray.origin),
                t4(ray.direction),
                self.objects@.len() as int,
            ),
            entries_hittable(r@, self.objects@, t4(ray.origin), t4(ray.direction)),
    {
        broadcast use vstd::seq_lib::group_to_multiset_ensures;

        let ghost f = |x: Intersection| inter_view(x);
        let ghost origin = t4(ray.origin);
        let ghost dir = t4(ray.direction);
        let mut intersections: Vec<Intersection> = Vec::new();
        let mut i: usize = 0;
        let n = self.objects.len();
        proof {
            assert(intersections@.map_values(f) =~= Seq::<(int, int)>::empty());
            assert(intersections@.map_values(f).to_multiset() =~= Multiset::<(int, int)>::empty());
        }
        while i < n
            invariant
                i <= n,
                n == self.objects@.len(),
                ray_wf(ray),
                world_wf(*self),
                origin == t4(ray.origin),
                dir == t4(ray.direction),
                sorted_by_distance(intersections@),
                intersections@.map_values(f).to_multiset() == world_hits_ms(
                    self.objects@,
                    origin,
                    dir,
                    i as int,
                ),
                entries_hittable(intersections@, self.objects@, origin, dir),
                f == (|x: Intersection| inter_view(x)),
            decreases n - i,
        {
            let object_intersections = self.objects[i].intersect(ray);
            match object_intersections {
                Some(ds) => {
                    let ghost ts = shape_hits(self.objects@[i as int], origin, dir)->Some_0;
                    let mut obj_ints: Vec<Intersection> = Vec::new();
                    let mut k: usize = 0;
                    let dslen = ds.len();
                    while k < dslen
                        invariant
                            k <= dslen,
                            dslen == ds@.len(),
                            i < n,
                            n == self.objects@.len(),
                            obj_ints@.len() == k,
                            forall|l: int|
                                0 <= l < k ==> #[trigger] obj_ints@[l] == (Intersection {
                                    distance: ds@[l],
                                    object_index: i,
                                }),
                        decreases dslen - k,
                    {
                        obj_ints.push(Intersection { distance: ds[k], object_index: i });
                        k = k + 1;
                    }
                    proof {
                        assert(obj_ints@.map_values(f) =~= ts.map_values(|t: int| (t, i as int)));
                        assert(sorted_by_distance(obj_ints@));
                    }
                    let ghost pre = intersections@;
                    intersections = combine_intersections(intersections, obj_ints);
                    proof {
                        lemma_map_multiset(intersections@, pre + obj_ints@);
                        vstd::seq_lib::lemma_multiset_commutative(
                            pre.map_values(f),
                            obj_ints@.map_values(f),
                        );
                        assert((pre + obj_ints@).map_values(f) =~= pre.map_values(f)
                            + obj_ints@.map_values(f));
                        assert(intersections@.map_values(f).to_multiset() == world_hits_ms(
                            self.objects@,
                            origin,
                            dir,
                            i + 1,
                        ));
                        reveal(shape_hits);
                        assert forall|k2: int|
                            0 <= k2 < intersections@.len() implies (
                        #[trigger] intersections@[k2]).object_index < self.objects@.len()
                            && shape_hits(
                            self.objects@[intersections@[k2].object_index as int],
                            origin,
                            dir,
                        ) is Some && crate::matrices::det4_of(
                            shape_transform(self.objects@[intersections@[k2].object_index as int]),
                        ) != 0 by {
                            let x = intersections@[k2];
                            assert(intersections@.contains(x));
                            vstd::seq_lib::to_multiset_contains(intersections@, x);
                            vstd::seq_lib::to_multiset_contains(pre + obj_ints@, x);
                            assert(intersections@.to_multiset().count(x) > 0);
                            assert((pre + obj_ints@).to_multiset().count(x) > 0);
                            assert((pre + obj_ints@).contains(x));
                            let l = choose|l: int|
                                0 <= l < (pre + obj_ints@).len() && (pre + obj_ints@)[l] == x;
                            if l < pre.len() {
                                assert(pre[l] == x);
                            } else {
                                assert(obj_ints@[l - pre.len()] == x);
                            }
                        }
                    }
                },
                None => {
                    proof {
                        assert(world_hits_ms(self.objects@, origin, dir, i + 1) == world_hits_ms(
                            self.objects@,
                            origin,
                            dir,
                            i as int,
                        ).add(Multiset::<(int, int)>::empty()));
                        assert(world_hits_ms(self.objects@, origin, dir, i + 1)
                            =~= intersections@.map_values(f).to_multiset());
                    }
                },
            }
            i = i + 1;
        }
        intersections
    }

    /// Whether an object lies strictly between the point and the light
    /// with the given index.
    pub fn is_shadowed(&self, point: Point, light_index: usize) -> (r: bool)
        requires
            world_wf(*self),
            is_point(point),
            light_index < self.lights@.len(),
        ensures
            r == is_shadowed_spec(*self, t4(point), self.lights@[light_index as int]),
    {
        proof {
            reveal(is_shadowed_spec);
        }
        let light = self.lights[light_index];
        let point_to_light = light.position.sub(point);
        let distance = point_to_light.magnitude();
        let ray_to_light = Ray { origin: point, direction: point_to_light.normalize_or_zero() };
        let intersections = self.intersect(ray_to_light);
        let ghost ms = world_hits_ms(
            self.objects@,
            t4(point),
            sp_normalize_safe(sp_sub(t4(light.position), t4(point))),
            self.objects@.len() as int,
        );
        let hi = hit_index(&intersections);
        match hi {
            Some(index) => {
                proof {
                    lemma_first_nonneg_hit(intersections@, ms, index as int);
                }
                if intersections[index].distance.lt(distance) {
                    return true;
                }
                proof {
                    assert forall|p: (int, int)| ms.contains(p) implies !(0 <= p.0 < distance@) by {
                        if p.0 >= 0 {
                            assert(hit_dist(ms) <= p.0);
                        }
                    }
                }
                false
            },
            None => {
                proof {
                    lemma_all_neg(intersections@, ms);
                }
                false
            },
        }
    }

    /// The color seen along the ray: black when it meets nothing ahead
    /// of the origin, else the Phong shading of the first object hit,
    /// plus the reflected contribution within the depth budget (the
    /// default budget when `None` is given).
    #[verifier::rlimit(100)]
    pub fn color_at(&self, ray: Ray, reflect_depth: Option<usize>) -> (r: Color)
        requires
            ray_wf(ray),
            world_wf(*self),
        ensures
            color_ok(
                *self,
                t4(ray.origin),
                t4(ray.direction),
                depth_val(reflect_depth) as nat,
                c3(r),
            ),
        decreases depth_val(reflect_depth), 2int,
    {
        let depth: usize = match reflect_depth {
            Some(d) => d,
            None => MAX_REFLECT_DEPTH,
        };
        let intersections = self.intersect(ray);
        let hi = hit_index(&intersections);
        match hi {
            Some(index) => {
                let comps = prepare_computations(index, ray, &intersections, &self.objects);
                let shaded = self.shade_hit(comps, depth);
                proof {
                    lemma_color_ok_hit(
                        *self,
                        t4(ray.origin),
                        t4(ray.direction),
                        depth as nat,
                        c3(shaded),
                        intersections@,
                        index as int,
                        comps,
                    );
                }
                shaded
            },
            None => {
                proof {
                    lemma_color_ok_miss(
                        *self,
                        t4(ray.origin),
                        t4(ray.direction),
                        depth as nat,
                        intersections@,
                    );
                }
                Color::black()
            },
        }
    }

    /// The summed per-light Phong contributions at a hit, plus the
    /// reflected contribution.
    pub fn shade_hit(&self, intersection_details: IntersectionDetails, reflect_depth: usize) -> (r:
        Color)
        requires
            world_wf(*self),
            details_wf(self.objects@, intersection_details),
        ensures
            shade_ok(
                *self,
                intersection_details.intersection.object_index as int,
                t4(intersection_details.point),
                t4(intersection_details.eye_normal),
                t4(intersection_details.surface_normal),
                t4(intersection_details.over_point),
                t4(intersection_details.reflect_vector),
                reflect_depth as nat,
                c3(r),
            ),
        decreases reflect_depth, 1int,
    {
        let ghost idx = intersection_details.intersection.object_index as int;
        let mut color = Color::black();
        let mut i: usize = 0;
        let nlights = self.lights.len();
        while i < nlights
            invariant
                i <= nlights,
                nlights == self.lights@.len(),
                world_wf(*self),
                details_wf(self.objects@, intersection_details),
                idx == intersection_details.intersection.object_index as int,
                c3(color) == lights_sum(
                    *self,
                    idx,
                    t4(intersection_details.point),
                    t4(intersection_details.eye_normal),
                    t4(intersection_details.surface_normal),
                    t4(intersection_details.over_point),
                    i as int,
                ),
            decreases nlights - i,
        {
            let light = self.lights[i];
            let shadowed = self.is_shadowed(intersection_details.over_point, i);
            let object = &self.objects[intersection_details.intersection.object_index];
            let contribution = light.lighting(
                object,
                intersection_details.point,
                intersection_details.eye_normal,
                intersection_details.surface_normal,
                shadowed,
            );
            color = color.add(contribution);
            i = i + 1;
        }
        let reflected = self.reflected_color(&intersection_details, reflect_depth);
        color.add(reflected)
    }

    /// The reflected contribution at a hit: black for a matte material
    /// or a spent depth budget, else the scene color along the
    /// reflection ray, scaled by the reflective coefficient.
    pub fn reflected_color(
        &self,
        intersection_details: &IntersectionDetails,
        reflect_depth: usize,
    ) -> (r: Color)
        requires
            world_wf(*self),
            details_wf(self.objects@, *intersection_details),
        ensures
            reflect_ok(
                *self,
                t4(intersection_details.over_point),
                t4(intersection_details.reflect_vector),
                shape_material(
                    self.objects@[intersection_details.intersection.object_index as int],
                ).reflective@,
                reflect_depth as nat,
                c3(r),
            ),
        decreases reflect_depth, 0int,
    {
        let object = &self.objects[intersection_details.intersection.object_index];
        let reflective_value = object.get_material().reflective;
        if reflective_value.is_zero() || reflect_depth < 1 {
            return Color::black();
        }
        let reflect_ray = Ray::new(
            intersection_details.over_point,
            intersection_details.reflect_vector,
        );
        let inner = self.color_at(reflect_ray, Some(reflect_depth - 1));
        inner.mul_scalar(reflective_value)
    }
}

/// The depth budget: the caller's, or the default.
pub open spec fn depth_val(reflect_depth: Option<usize>) -> int {
    match reflect_depth {
        Some(d) => d as int,
        None => MAX_REFLECT_DEPTH as int,
    }
}

impl Default for World {
    /// The customary test scene: a large tinted sphere, a half-size
    /// sphere inside it, and a reflective floor plane one unit down,
    /// under one white light. The contract pins every object and the
    /// light, so the scene's intersections and colors follow from it.
    fn default() -> (r: Self)
        ensures
            world_wf(r),
            r.objects@.len() == 3,
            r.lights@.len() == 1,
            t4(r.lights@[0].position) == (
                -10 * SCALE as int,
                10 * SCALE as int,
                -10 * SCALE as int,
                SCALE as int,
            ),
            c3(r.lights@[0].intensity) == (SCALE as int, SCALE as int, SCALE as int),
            crate::matrices::det4_of(shape_transform(r.objects@[0])) != 0,
            crate::matrices::det4_of(shape_transform(r.objects@[1])) != 0,
            crate::matrices::det4_of(shape_transform(r.objects@[2])) != 0,
            r.objects@[0] is Sphere,
            ({
                let s0 = r.objects@[0]->Sphere_0;
                &&& t4(s0.center) == (0int, 0int, 0int, SCALE as int)
                &&& s0.radius@ == SCALE
                &&& crate::matrices::is_identity(s0.transform)
                &&& s0.material.patterns@.len() == 0
                &&& c3(s0.material.color) == (
                    8 * SCALE as int / 10,
                    SCALE as int,
                    6 * SCALE as int / 10,
                )
                &&& s0.material.ambient@ == SCALE as int / 10
                &&& s0.material.diffuse@ == 7 * SCALE as int / 10
                &&& s0.material.specular@ == 2 * SCALE as int / 10
                &&& s0.material.shininess == 200
                &&& s0.material.reflective@ == 0
                &&& s0.material.transparency@ == 0
                &&& s0.material.refractive_index@ == SCALE
            }),
            r.objects@[1] is Sphere,
            ({
                let s1 = r.objects@[1]->Sphere_0;
                &&& t4(s1.center) == (0int, 0int, 0int, SCALE as int)
                &&& s1.radius@ == SCALE
                &&& crate::visuals::is_default_material(s1.material)
                &&& forall|i: int, j: int|
                    0 <= i < 4 && 0 <= j < 4 ==> #[trigger] s1.transform.rows[i][j]@
                        == crate::matrices::scaling_entry(
                        SCALE as int / 2,
                        SCALE as int / 2,
                        SCALE as int / 2,
                        i,
                        j,
                    )
            }),
            r.objects@[2] is Plane,
            ({
                let p2 = r.objects@[2]->Plane_0;
                &&& p2.material.patterns@.len() == 0
                &&& c3(p2.material.color) == (SCALE as int, SCALE as int, SCALE as int)
                &&& p2.material.ambient@ == SCALE as int / 10
                &&& p2.material.diffuse@ == SCALE as int * 9 / 10
                &&& p2.material.specular@ == SCALE as int * 9 / 10
                &&& p2.material.shininess == 200
                &&& p2.material.reflective@ == SCALE as int / 2
                &&& p2.material.transparency@ == 0
                &&& p2.material.refractive_index@ == SCALE
                &&& forall|i: int, j: int|
                    0 <= i < 4 && 0 <= j < 4 ==> #[trigger] p2.transform.rows[i][j]@
                        == crate::matrices::translation_entry(0, -(SCALE as int), 0, i, j)
            }),
    {
        let mut world = World::new();
        let zero = Scalar::zero();
        let one = Scalar::one();

        let mut sphere_1 = Sphere::default();
        sphere_1.set_material(
            Material::new(
                Color::new(Scalar::from_ratio(8, 10), Scalar::one(), Scalar::from_ratio(6, 10)),
                Vec::new(),
                Scalar::from_ratio(1, 10),
                Scalar::from_ratio(7, 10),
                Scalar::from_ratio(2, 10),
                200,
                zero,
                zero,
                one,
            ),
        );

        let mut sphere_2 = Sphere::default();
        let half = Scalar::from_ratio(1, 2);
        sphere_2.set_transform(Matrix::scaling(half, half, half));

        let mut plane = Plane::default();
        let mut plane_material = Material::default();
        plane_material.reflective = Scalar::from_ratio(1, 2);
        plane.set_material(plane_material);
        plane.set_transform(Matrix::translation(zero, one.neg(), zero));

        proof {
            crate::matrices::lemma_identity_det(sphere_1.transform);
            crate::matrices::lemma_scaling_det(
                sphere_2.transform,
                SCALE as int / 2,
                SCALE as int / 2,
                SCALE as int / 2,
            );
            crate::matrices::lemma_translation_det(plane.transform, 0, -(SCALE as int), 0);
        }
        world.add_object(WorldShape::Sphere(sphere_1));
        world.add_object(WorldShape::Sphere(sphere_2));
        world.add_object(WorldShape::Plane(plane));
        world
    }
}

} // verus!
