//! Ray–object intersections: a distance along the ray together with the
//! index of the intersected object in the owning world's object list.

use crate::base_types::{
    is_point, is_vector, ray_wf, sp_add, sp_dot, sp_neg, sp_reflect, sp_scale, t4, Point, Ray,
    Vector,
};
use crate::matrices::det4_of;
use crate::scalar::{epsilon, Scalar, EPSILON_RAW, SCALE};
use crate::utils::{combine_sorted, sorted_by_distance};
use crate::world::{shape_normal, shape_transform, shape_wf, WorldShape};
use vstd::prelude::*;

verus! {

#[derive(Clone, Copy, Debug, PartialEq, Eq, Structural)]
pub struct Intersection {
    pub distance: Scalar,
    pub object_index: usize,
}

impl Intersection {
    /// Same distance and same originating object.
    pub fn equal(&self, intersection: &Self) -> (r: bool)
        ensures
            r == (self.distance == intersection.distance && self.object_index
                == intersection.object_index),
    {
        self.distance == intersection.distance && self.object_index == intersection.object_index
    }
}

/// Consumes the two sorted lists and returns one sorted list holding the
/// intersections of both: ascending by distance, length the sum of the
/// two lengths, and exactly the stable merge — on equal distances the
/// first list's element precedes the second's.
pub fn combine_intersections(vec1: Vec<Intersection>, vec2: Vec<Intersection>) -> (r: Vec<
    Intersection,
>)
    requires
        sorted_by_distance(vec1@),
        sorted_by_distance(vec2@),
    ensures
        r@.len() == vec1@.len() + vec2@.len(),
        sorted_by_distance(r@),
        r@.to_multiset() == (vec1@ + vec2@).to_multiset(),
        r@ == crate::utils::merge_spec(vec1@, vec2@),
{
    let mut vec1 = vec1;
    let ghost v1 = vec1@;
    let separator = vec1.len();
    let mut k: usize = 0;
    let ghost v2 = vec2@;
    let vlen = vec2.len();
    proof {
        assert(vec1@ =~= v1 + v2.subrange(0, 0));
    }
    while k < vlen
        invariant
            k <= vlen,
            vlen == v2.len(),
            vec2@ == v2,
            separator == v1.len(),
            vec1@ == v1 + v2.subrange(0, k as int),
        decreases vlen - k,
    {
        vec1.push(vec2[k]);
        proof {
            assert(v2.subrange(0, k + 1) =~= v2.subrange(0, k as int).push(v2[k as int]));
        }
        k = k + 1;
    }
    proof {
        assert(v2.subrange(0, vlen as int) =~= v2);
        assert(vec1@ == v1 + v2);
        assert forall|p: int, q: int|
            0 <= p < q < separator implies #[trigger] vec1@[p].distance@
            <= #[trigger] vec1@[q].distance@ by {
            assert(vec1@[p] == v1[p]);
            assert(vec1@[q] == v1[q]);
        }
        assert forall|p: int, q: int|
            separator <= p < q < vec1@.len() implies #[trigger] vec1@[p].distance@
            <= #[trigger] vec1@[q].distance@ by {
            assert(vec1@[p] == v2[p - separator]);
            assert(vec1@[q] == v2[q - separator]);
        }
    }
    combine_sorted(&mut vec1, separator);
    proof {
        assert((v1 + v2).subrange(0, separator as int) =~= v1);
        assert((v1 + v2).subrange(separator as int, (v1 + v2).len() as int) =~= v2);
    }
    vec1
}

/// The spec view of an intersection: its stored distance and its object
/// index as plain integers.
pub open spec fn inter_view(i: Intersection) -> (int, int) {
    (i.distance@, i.object_index as int)
}

/// Two lists holding the same intersections hold the same pair views.
pub proof fn lemma_map_multiset(a: Seq<Intersection>, b: Seq<Intersection>)
    requires
        a.to_multiset() == b.to_multiset(),
    ensures
        a.map_values(|i: Intersection| inter_view(i)).to_multiset() == b.map_values(
            |i: Intersection| inter_view(i),
        ).to_multiset(),
    decreases a.len(),
{
    broadcast use vstd::seq_lib::group_to_multiset_ensures;
    broadcast use vstd::multiset::group_multiset_axioms;

    let f = |i: Intersection| inter_view(i);
    if a.len() == 0 {
        assert(a.to_multiset().len() == 0);
        assert(b.to_multiset().len() == 0);
        assert(b.len() == 0);
        assert(a.map_values(f) =~= b.map_values(f));
    } else {
        let x = a.last();
        assert(a.to_multiset().contains(x)) by {
            assert(a.contains(x));
        }
        assert(b.to_multiset().contains(x));
        assert(b.contains(x));
        let j = choose|j: int| 0 <= j < b.len() && b[j] == x;
        let a1 = a.drop_last();
        let b1 = b.remove(j);
        assert(a =~= a1.push(x));
        assert(a.to_multiset() == a1.to_multiset().insert(x));
        assert(b1.to_multiset() == b.to_multiset().remove(x));
        assert(a1.to_multiset() =~= b1.to_multiset());
        lemma_map_multiset(a1, b1);
        assert(a.map_values(f) =~= a1.map_values(f).push(f(x)));
        assert(a.map_values(f).to_multiset() == a1.map_values(f).to_multiset().insert(f(x)));
        assert(b1.map_values(f) =~= b.map_values(f).remove(j));
        assert(b.map_values(f)[j] == f(x));
        assert(b1.map_values(f).to_multiset() == b.map_values(f).to_multiset().remove(f(x)));
        assert(b.map_values(f).to_multiset().contains(f(x))) by {
            assert(b.map_values(f).contains(f(x)));
        }
        assert(a.map_values(f).to_multiset() =~= b.map_values(f).to_multiset());
    }
}

/// The shading inputs refer to a hittable, well-formed object of the
/// list and carry the right point and vector tags.
pub open spec fn details_wf(objects: Seq<WorldShape>, d: IntersectionDetails) -> bool {
    &&& d.intersection.object_index < objects.len()
    &&& shape_wf(objects[d.intersection.object_index as int])
    &&& det4_of(shape_transform(objects[d.intersection.object_index as int])) != 0
    &&& is_point(d.point)
    &&& is_vector(d.eye_normal)
    &&& is_vector(d.surface_normal)
    &&& is_point(d.over_point)
    &&& is_vector(d.reflect_vector)
}

/// What the shading step needs to know about a hit: the intersection
/// itself, the hit point, the eye and surface normals, whether the hit
/// is on the inside of the surface, the reflection direction, and the
/// hit point nudged off the surface along the normal.
#[derive(Clone, Copy, Debug)]
pub struct IntersectionDetails {
    pub intersection: Intersection,
    pub point: Point,
    pub eye_normal: Vector,
    pub surface_normal: Vector,
    pub is_inside: bool,
    pub reflect_vector: Vector,
    pub refractive_entry_index: Scalar,
    pub refractive_exit_index: Scalar,
    pub over_point: Point,
}

/// Derive the shading inputs for the hit at `hit_index`: the hit point
/// along the ray, the eye vector, the surface normal (flipped when the
/// eye looks at the inside), the reflection vector, and the over point
/// nudged off the surface by the fixed tolerance.
pub fn prepare_computations(
    hit_index: usize,
    ray: Ray,
    intersections: &Vec<Intersection>,
    objects: &Vec<WorldShape>,
) -> (r: IntersectionDetails)
    requires
        ray_wf(ray),
        hit_index < intersections@.len(),
        intersections@[hit_index as int].object_index < objects@.len(),
        shape_wf(objects@[intersections@[hit_index as int].object_index as int]),
        det4_of(
            shape_transform(objects@[intersections@[hit_index as int].object_index as int]),
        ) != 0,
    ensures
        r.intersection == intersections@[hit_index as int],
        t4(r.point) == sp_add(
            t4(ray.origin),
            sp_scale(t4(ray.direction), r.intersection.distance@),
        ),
        t4(r.eye_normal) == sp_neg(t4(ray.direction)),
        ({
            let n0 = shape_normal(
                objects@[r.intersection.object_index as int],
                t4(r.point),
            );
            &&& r.is_inside == (sp_dot(sp_neg(t4(ray.direction)), n0) < 0)
            &&& t4(r.surface_normal) == if r.is_inside {
                sp_neg(n0)
            } else {
                n0
            }
        }),
        t4(r.over_point) == sp_add(
            t4(r.point),
            sp_scale(t4(r.surface_normal), EPSILON_RAW as int),
        ),
        t4(r.reflect_vector) == sp_reflect(t4(ray.direction), t4(r.surface_normal)),
        r.refractive_entry_index@ == SCALE,
        r.refractive_exit_index@ == SCALE,
        details_wf(objects@, r),
{
    let inter = intersections[hit_index];
    let point = ray.position(inter.distance);
    let object = &objects[inter.object_index];
    let mut surface_normal = object.normal_at(point);
    let eye_normal = ray.direction.neg();
    let is_inside: bool;
    if eye_normal.dot(surface_normal).is_neg() {
        is_inside = true;
        surface_normal = surface_normal.neg();
    } else {
        is_inside = false;
    }
    let over_point = point.add(surface_normal.mul(epsilon()));
    let reflect_vector = ray.direction.reflect(surface_normal);
    let one = Scalar::one();
    IntersectionDetails {
        intersection: inter,
        point,
        eye_normal,
        surface_normal,
        is_inside,
        reflect_vector,
        refractive_entry_index: one,
        refractive_exit_index: one,
        over_point,
    }
}

/// The index of the first intersection at a non-negative distance, in a
/// list that must already be ascending by distance; `None` when the list
/// is empty or every distance is negative.
pub fn hit_index(intersections: &Vec<Intersection>) -> (r: Option<usize>)
    requires
        sorted_by_distance(intersections@),
    ensures
        match r {
            Some(i) => {
                &&& i < intersections@.len()
                &&& intersections@[i as int].distance@ >= 0
                &&& forall|k: int| 0 <= k < i ==> intersections@[k].distance@ < 0
            },
            None => forall|k: int|
                0 <= k < intersections@.len() ==> intersections@[k].distance@ < 0,
        },
{
    let len = intersections.len();
    let mut i: usize = 0;
    while i < len
        invariant
            i <= len,
            len == intersections@.len(),
            forall|k: int| 0 <= k < i ==> intersections@[k].distance@ < 0,
        decreases len - i,
    {
        if !intersections[i].distance.is_neg() {
            return Some(i);
        }
        i = i + 1;
    }
    None
}

} // verus!
