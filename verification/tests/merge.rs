use ray_tracer::base_types::{combine_intersections, hit_index, Intersection};
use ray_tracer::scalar::Scalar;
use ray_tracer::utils::is_sorted;

fn s(v: f64) -> Scalar {
    Scalar::from_bits((v * 4294967296.0).round() as i128)
}

fn with_index(distances: &[f64], object_index: usize) -> Vec<Intersection> {
    let mut out = Vec::new();
    for d in distances {
        out.push(Intersection { distance: s(*d), object_index });
    }
    out
}

#[test]
fn merge_two_sorted_lists() {
    let left = with_index(&[1.0, 4.0, 6.0], 0);
    let right = with_index(&[2.0, 3.0, 7.0], 1);

    let merged = combine_intersections(left, right);

    assert_eq!(merged.len(), 6);
    assert!(is_sorted(&merged));
    let expected = [1.0, 2.0, 3.0, 4.0, 6.0, 7.0];
    for (entry, want) in merged.iter().zip(expected.iter()) {
        assert_eq!(entry.distance, s(*want));
    }
}

#[test]
fn merge_with_an_empty_side() {
    let left = with_index(&[], 0);
    let right = with_index(&[2.0, 3.0], 1);

    let merged = combine_intersections(left, right);
    assert_eq!(merged.len(), 2);
    assert!(is_sorted(&merged));
}

#[test]
fn merge_with_equal_keys() {
    let left = with_index(&[1.0, 2.0], 0);
    let right = with_index(&[2.0, 2.0], 1);

    let merged = combine_intersections(left, right);
    assert_eq!(merged.len(), 4);
    assert!(is_sorted(&merged));
    assert_eq!(merged[1].distance, s(2.0));
    assert_eq!(merged[2].distance, s(2.0));
    assert_eq!(merged[3].distance, s(2.0));
}

#[test]
fn is_sorted_detects_disorder() {
    let out_of_order = with_index(&[3.0, 1.0], 0);
    assert!(!is_sorted(&out_of_order));
    assert!(is_sorted(&with_index(&[], 0)));
}

#[test]
fn hit_with_no_candidates() {
    let all_behind = with_index(&[-3.0, -2.0], 0);
    assert!(hit_index(&all_behind).is_none());

    let empty = with_index(&[], 0);
    assert!(hit_index(&empty).is_none());
}
