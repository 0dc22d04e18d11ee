use geometric_algebra::bivector::BiVector;
use geometric_algebra::ops::{GeometricAdd, GeometricProduct, GeometricSub};
use geometric_algebra::trivector::{TriVector, TriVector3};
use geometric_algebra::vector::Vector;

#[test]
fn trivector_product_is_negated() {
    let r: i64 = TriVector::<3>::new(3).geometric_product(TriVector::<3>::new(4));
    assert_eq!(r, -12);
    let s: i64 = TriVector::<3>::new(-2).geometric_product(TriVector::<3>::new(5));
    assert_eq!(s, 10);
}

#[test]
fn trivector_basics() {
    let t: TriVector3 = TriVector::new_const(6);
    assert_eq!(*t.deref(), 6);
    assert_eq!(TriVector::<3>::zero(), TriVector::new(0));
    let mut u = TriVector::<3>::new(1);
    *u.deref_mut() = 9;
    assert_eq!(*u.deref(), 9);
    assert_eq!(*t.neg().deref(), -6);
    assert_eq!(*t.add(u).deref(), 15);
    assert_eq!(*t.sub(u).deref(), -3);
    assert_eq!(*t.add_scalar(2).deref(), 8);
    assert_eq!(*t.sub_scalar(2).deref(), 4);
    assert_eq!(*t.mul(-3).deref(), -18);
    assert_eq!(*TriVector::<3>::new(-7).div(2).deref(), -3);
    let mut w = TriVector::<3>::new(1);
    w.add_assign(TriVector::new(4));
    assert_eq!(*w.deref(), 5);
    w.sub_assign(TriVector::new(7));
    assert_eq!(*w.deref(), -2);
}

#[test]
fn trivector_times_vector_in_three_dimensions() {
    let r = TriVector::<3>::new(2).geometric_product(Vector::<3>::new([1, -2, 3]));
    assert_eq!(r.iter().to_vec(), vec![2, -4, 6]);
}

#[test]
fn trivector_times_vector_in_four_dimensions() {
    let r = TriVector::<4>::new(3).geometric_product(Vector::<4>::new([1, 2, 3, 4]));
    assert_eq!(r.iter().to_vec(), vec![3, 6, 9, 12, 0, 0]);
}

#[test]
fn trivector_times_bivector_is_negated() {
    let r: Vec<i64> =
        TriVector::<3>::new(2).geometric_product(BiVector::<3>::new(vec![1, -2, 3]));
    assert_eq!(r, vec![-2, 4, -6]);
}

#[test]
fn trivector_plus_other_grades_keeps_both() {
    let t = TriVector::<3>::new(5);
    let (v, t2) = t.geometric_add(Vector::<3>::new([1, 2, 3]));
    assert_eq!(v.0, [1, 2, 3]);
    assert_eq!(t2, t);
    let (v, t3) = t.geometric_sub(Vector::<3>::new([1, 2, 3]));
    assert_eq!(v.0, [-1, -2, -3]);
    assert_eq!(t3, t);
    let (b, t4) = t.geometric_add(BiVector::<3>::new(vec![4, 5, 6]));
    assert_eq!(b.iter().to_vec(), vec![4, 5, 6]);
    assert_eq!(t4, t);
    let (b, t5) = t.geometric_sub(BiVector::<3>::new(vec![4, 5, 6]));
    assert_eq!(b.iter().to_vec(), vec![-4, -5, -6]);
    assert_eq!(t5, t);
}
