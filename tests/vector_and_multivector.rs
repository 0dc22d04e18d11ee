use geometric_algebra::bivector::BiVector;
use geometric_algebra::multivector::MultiVector;
use geometric_algebra::ops::{GeometricAdd, GeometricProduct, GeometricSub};
use geometric_algebra::trivector::TriVector;
use geometric_algebra::vector::Vector;

#[test]
fn vector_arithmetic() {
    let a = Vector::<3>::new([1, 2, 3]);
    let b = Vector::<3>::new([4, -5, 6]);
    assert_eq!(a.add(b).0, [5, -3, 9]);
    assert_eq!(a.sub(b).0, [-3, 7, -3]);
    assert_eq!(a.neg().0, [-1, -2, -3]);
    assert_eq!(a.mul(3).0, [3, 6, 9]);
    assert_eq!(a.inner_product(&b), 12);
    assert_eq!(a.index(2), 3);
}

#[test]
fn vector_geometric_product_is_inner_plus_outer() {
    let a = Vector::<3>::new([4, 5, 6]);
    let b = Vector::<3>::new([8, 3, 1]);
    let (s, bv) = a.geometric_product(b);
    assert_eq!(s, 53);
    assert_eq!(bv.iter().to_vec(), vec![-28, -44, -13]);
}

#[test]
fn antisymmetric_tensor_keeps_every_pair() {
    let a = Vector::<3>::new([4, 5, 6]);
    let b = Vector::<3>::new([8, 3, 1]);
    let t = a.antisymmetric_tensor(&b);
    assert_eq!(t, vec![vec![0, -28, -44], vec![28, 0, -13], vec![44, 13, 0]]);
}

#[test]
fn multivector_sum_takes_the_union_of_grades() {
    let l = MultiVector::<3>::new(Some(2), Some(Vector::new([1, 2, 3])), None, None);
    let r = MultiVector::<3>::new(
        Some(5),
        None,
        Some(BiVector::new(vec![7, 8, 9])),
        Some(TriVector::new(4)),
    );
    let s = l.geometric_add(r);
    assert_eq!(s.scalar, Some(7));
    assert_eq!(s.vector.map(|v| v.0), Some([1, 2, 3]));
    assert_eq!(s.bivector.map(|b| b.iter().to_vec()), Some(vec![7, 8, 9]));
    assert_eq!(s.trivector, Some(TriVector::new(4)));
}

#[test]
fn multivector_difference_negates_the_right_only_parts() {
    let l = MultiVector::<3>::new(Some(2), Some(Vector::new([1, 2, 3])), None, None);
    let r = MultiVector::<3>::new(
        Some(5),
        Some(Vector::new([1, 1, 1])),
        Some(BiVector::new(vec![7, 8, 9])),
        None,
    );
    let d = l.geometric_sub(r);
    assert_eq!(d.scalar, Some(-3));
    assert_eq!(d.vector.map(|v| v.0), Some([0, 1, 2]));
    assert_eq!(d.bivector.map(|b| b.iter().to_vec()), Some(vec![-7, -8, -9]));
    assert_eq!(d.trivector, None);
}

#[test]
fn multivector_both_sides_bivector() {
    let l = MultiVector::<3>::new(None, None, Some(BiVector::new(vec![1, 2, 3])), Some(TriVector::new(1)));
    let r = MultiVector::<3>::new(None, None, Some(BiVector::new(vec![3, 2, 1])), Some(TriVector::new(2)));
    let s = l.geometric_add(r);
    assert_eq!(s.bivector.map(|b| b.iter().to_vec()), Some(vec![4, 4, 4]));
    assert_eq!(s.trivector, Some(TriVector::new(3)));
    assert_eq!(s.scalar, None);
    assert!(s.vector.is_none());
}

#[test]
fn scalar_times_multivector_scales_each_part() {
    let m = MultiVector::<3>::new(
        Some(2),
        Some(Vector::new([1, -2, 3])),
        None,
        Some(TriVector::new(-4)),
    );
    let p: MultiVector<3> = 3i64.geometric_product(m);
    assert_eq!(p.scalar, Some(6));
    assert_eq!(p.vector.map(|v| v.0), Some([3, -6, 9]));
    assert!(p.bivector.is_none());
    assert_eq!(p.trivector, Some(TriVector::new(-12)));
}

#[test]
fn vector_equality_is_position_wise() {
    assert_eq!(Vector::<3>::new([1, 2, 3]), Vector::<3>::new([1, 2, 3]));
    assert_ne!(Vector::<3>::new([1, 2, 3]), Vector::<3>::new([1, 3, 2]));
}

#[test]
fn trivector_times_vector_in_two_dimensions_uses_the_stored_slot_only() {
    let r = TriVector::<2>::new(i64::MAX).geometric_product(Vector::<2>::new([1, 2]));
    assert_eq!(r.iter().to_vec(), vec![i64::MAX]);
}
