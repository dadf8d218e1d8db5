//! Small shared helpers: tolerance comparison and the sorted-merge step
//! used by the intersection engine.

use crate::base_types::{feq, Intersection};
use vstd::prelude::*;

verus! {

/// The two scalars differ by less than the fixed tolerance.
pub fn float_equal(i: crate::scalar::Scalar, j: crate::scalar::Scalar) -> (r: bool)
    ensures
        r == feq(i@, j@),
{
    i.note_range();
    j.note_range();
    let diff = i.sub(j);
    let eps = crate::scalar::epsilon();
    diff.lt(eps) && eps.neg().lt(diff)
}

/// The slice of `s` between `lo` and `hi` is ascending by distance.
pub open spec fn sorted_range(s: Seq<Intersection>, lo: int, hi: int) -> bool {
    forall|p: int, q: int| lo <= p < q < hi ==> #[trigger] s[p].distance@ <= #[trigger] s[q].distance@
}

/// The whole sequence is ascending by distance.
pub open spec fn sorted_by_distance(s: Seq<Intersection>) -> bool {
    sorted_range(s, 0, s.len() as int)
}

/// Whether a list of intersections is ascending by distance.
pub fn is_sorted(vec: &Vec<Intersection>) -> (r: bool)
    ensures
        r == sorted_by_distance(vec@),
{
    let len = vec.len();
    let mut k: usize = 1;
    while k < len
        invariant
            1 <= k,
            len == vec@.len(),
            sorted_range(vec@, 0, k as int),
        decreases len - k,
    {
        if vec[k].distance.lt(vec[k - 1].distance) {
            return false;
        }
        proof {
            assert forall|p: int, q: int|
                0 <= p < q < k + 1 implies #[trigger] vec@[p].distance@
                <= #[trigger] vec@[q].distance@ by {
                if q == k {
                    assert(vec@[p].distance@ <= vec@[k - 1].distance@);
                }
            }
        }
        k = k + 1;
    }
    true
}

/// The stable merge of two runs, written out recursively: at each step
/// the run whose head has the smaller distance gives up its head, and
/// on equal distances the left run's element comes first.
pub open spec fn merge_spec(a: Seq<Intersection>, b: Seq<Intersection>) -> Seq<Intersection>
    decreases a.len() + b.len(),
{
    if a.len() == 0 {
        b
    } else if b.len() == 0 {
        a
    } else if a[0].distance@ <= b[0].distance@ {
        seq![a[0]] + merge_spec(a.drop_first(), b)
    } else {
        seq![b[0]] + merge_spec(a, b.drop_first())
    }
}

/// The merge step of merge sort: `vec` holds two runs that are each
/// ascending by distance, split at `separator`; afterwards the whole
/// list is ascending, holds the same intersections, and is exactly the
/// stable merge of the two runs (on equal distances the left run's
/// element precedes the right run's).
pub fn combine_sorted(vec: &mut Vec<Intersection>, separator: usize)
    requires
        separator <= old(vec)@.len(),
        sorted_range(old(vec)@, 0, separator as int),
        sorted_range(old(vec)@, separator as int, old(vec)@.len() as int),
    ensures
        final(vec)@.len() == old(vec)@.len(),
        sorted_by_distance(final(vec)@),
        final(vec)@.to_multiset() == old(vec)@.to_multiset(),
        final(vec)@ == merge_spec(
            old(vec)@.subrange(0, separator as int),
            old(vec)@.subrange(separator as int, old(vec)@.len() as int),
        ),
{
    broadcast use vstd::seq_lib::lemma_multiset_commutative;
    broadcast use vstd::seq_lib::to_multiset_build;

    let len = vec.len();
    let ghost left = vec@.subrange(0, separator as int);
    let ghost right = vec@.subrange(separator as int, len as int);
    let mut temp: Vec<Intersection> = Vec::new();
    let mut i: usize = 0;
    let mut j: usize = separator;
    assert(vec@.subrange(0, 0) + vec@.subrange(separator as int, separator as int) =~= Seq::<
        Intersection,
    >::empty());
    assert(temp@ =~= Seq::<Intersection>::empty());
    assert(temp@ + merge_spec(left, right) =~= merge_spec(left, right));
    while i < separator || j < len
        invariant
            i <= separator <= j <= len,
            len == vec@.len(),
            vec@ == old(vec)@,
            left == vec@.subrange(0, separator as int),
            right == vec@.subrange(separator as int, len as int),
            sorted_range(vec@, 0, separator as int),
            sorted_range(vec@, separator as int, len as int),
            temp@.len() == i + j - separator,
            sorted_by_distance(temp@),
            forall|k: int|
                0 <= k < temp@.len() && i < separator ==> #[trigger] temp@[k].distance@
                    <= vec@[i as int].distance@,
            forall|k: int|
                0 <= k < temp@.len() && j < len ==> #[trigger] temp@[k].distance@
                    <= vec@[j as int].distance@,
            temp@.to_multiset() == (vec@.subrange(0, i as int) + vec@.subrange(
                separator as int,
                j as int,
            )).to_multiset(),
            temp@ + merge_spec(
                vec@.subrange(i as int, separator as int),
                vec@.subrange(j as int, len as int),
            ) == merge_spec(left, right),
        decreases len + separator - i - j,
    {
        let take_left = if i < separator {
            if j < len {
                vec[i].distance.le(vec[j].distance)
            } else {
                true
            }
        } else {
            false
        };
        if take_left {
            let x = vec[i];
            let ghost pre = temp@;
            temp.push(x);
            proof {
                broadcast use vstd::multiset::group_multiset_axioms;

                let a = vec@.subrange(0, i as int);
                let b = vec@.subrange(separator as int, j as int);
                assert(vec@.subrange(0, i + 1) =~= a.push(x));
                vstd::seq_lib::to_multiset_build(pre, x);
                vstd::seq_lib::to_multiset_build(a, x);
                vstd::seq_lib::lemma_multiset_commutative(a, b);
                vstd::seq_lib::lemma_multiset_commutative(a.push(x), b);
                assert(a.to_multiset().insert(x).add(b.to_multiset())
                    =~= a.to_multiset().add(b.to_multiset()).insert(x));
                assert(temp@.to_multiset() == pre.to_multiset().insert(x));
                assert(temp@.to_multiset() =~= (a.push(x) + b).to_multiset());

                let la = vec@.subrange(i as int, separator as int);
                let rb = vec@.subrange(j as int, len as int);
                assert(la.len() > 0 && la[0] == x);
                assert(la.drop_first() =~= vec@.subrange(i + 1, separator as int));
                if j < len {
                    assert(rb.len() > 0 && rb[0] == vec@[j as int]);
                    assert(merge_spec(la, rb) == seq![x] + merge_spec(la.drop_first(), rb));
                } else {
                    assert(rb.len() == 0);
                    assert(merge_spec(la, rb) == la);
                    assert(merge_spec(la.drop_first(), rb) == la.drop_first());
                    assert(la =~= seq![x] + la.drop_first());
                }
                assert(temp@ + merge_spec(vec@.subrange(i + 1, separator as int), rb) =~= pre
                    + merge_spec(la, rb));
            }
            i = i + 1;
        } else {
            let x = vec[j];
            let ghost pre = temp@;
            temp.push(x);
            proof {
                let a = vec@.subrange(0, i as int);
                let b = vec@.subrange(separator as int, j as int);
                assert((a + vec@.subrange(separator as int, j + 1)) =~= (a + b).push(x));
                vstd::seq_lib::to_multiset_build(pre, x);
                vstd::seq_lib::to_multiset_build(a + b, x);
                assert(temp@.to_multiset() == pre.to_multiset().insert(x));

                let la = vec@.subrange(i as int, separator as int);
                let rb = vec@.subrange(j as int, len as int);
                assert(rb.len() > 0 && rb[0] == x);
                assert(rb.drop_first() =~= vec@.subrange(j + 1, len as int));
                if i < separator {
                    assert(la.len() > 0 && la[0] == vec@[i as int]);
                    assert(!(la[0].distance@ <= rb[0].distance@));
                    assert(merge_spec(la, rb) == seq![x] + merge_spec(la, rb.drop_first()));
                } else {
                    assert(la.len() == 0);
                    assert(merge_spec(la, rb) == rb);
                    assert(merge_spec(la, rb.drop_first()) == rb.drop_first());
                    assert(rb =~= seq![x] + rb.drop_first());
                }
                assert(temp@ + merge_spec(la, vec@.subrange(j + 1, len as int)) =~= pre
                    + merge_spec(la, rb));
            }
            j = j + 1;
        }
    }
    proof {
        assert(vec@.subrange(0, separator as int) + vec@.subrange(separator as int, len as int)
            =~= vec@);
        assert(vec@.subrange(separator as int, separator as int).len() == 0);
        assert(merge_spec(
            vec@.subrange(separator as int, separator as int),
            vec@.subrange(len as int, len as int),
        ).len() == 0);
        assert(temp@ + merge_spec(
            vec@.subrange(separator as int, separator as int),
            vec@.subrange(len as int, len as int),
        ) =~= temp@);
    }
    *vec = temp;
}

} // verus!
