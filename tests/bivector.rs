use geometric_algebra::bivector::{BiVector, BiVector3};
use geometric_algebra::ops::ExteriorProduct;
use geometric_algebra::traits::{XYMut, XZMut, YZMut, XY, XZ, YZ};
use geometric_algebra::trivector::TriVector;
use geometric_algebra::vector::Vector;

#[test]
fn new_then_iter_gives_back_the_coefficients() {
    let src = vec![7, -2, 9];
    let b = BiVector::<3>::new(src.clone());
    let back: Vec<i64> = b.iter().iter().copied().collect();
    assert_eq!(back, src);
    let c = BiVector::<3>::new_const(vec![1, 2, 3]);
    assert_eq!(c.iter().to_vec(), vec![1, 2, 3]);
}

#[test]
fn zero_has_the_dimension_length() {
    assert_eq!(BiVector::<4>::zero().iter().to_vec(), vec![0; 6]);
    assert_eq!(BiVector::<3>::zero().iter().to_vec(), vec![0; 3]);
    assert!(BiVector::<1>::zero().iter().is_empty());
}

#[test]
fn iter_mut_writes_in_place() {
    let mut b = BiVector::<3>::new(vec![1, 2, 3]);
    for x in b.iter_mut().iter_mut() {
        *x = *x * 10;
    }
    assert_eq!(b.iter().to_vec(), vec![10, 20, 30]);
}

#[test]
fn index_and_index_mut() {
    let mut b = BiVector::<3>::new(vec![1, 2, 3]);
    assert_eq!(*b.index(1), 2);
    *b.index_mut(1) = 8;
    assert_eq!(b.iter().to_vec(), vec![1, 8, 3]);
}

#[test]
fn named_components() {
    let mut b: BiVector3 = BiVector::new(vec![4, 5, 6]);
    assert_eq!((*b.xy(), *b.xz(), *b.yz()), (4, 5, 6));
    *b.xy_mut() = -1;
    *b.xz_mut() = -2;
    *b.yz_mut() = -3;
    assert_eq!(b.iter().to_vec(), vec![-1, -2, -3]);
}

#[test]
fn elementwise_arithmetic() {
    let a = BiVector::<3>::new(vec![1, -2, 3]);
    let b = BiVector::<3>::new(vec![10, 20, -30]);
    assert_eq!(a.clone().neg().iter().to_vec(), vec![-1, 2, -3]);
    assert_eq!(a.clone().add(b.clone()).iter().to_vec(), vec![11, 18, -27]);
    assert_eq!(a.clone().sub(b.clone()).iter().to_vec(), vec![-9, -22, 33]);
    assert_eq!(a.clone().add_scalar(5).iter().to_vec(), vec![6, 3, 8]);
    assert_eq!(a.clone().sub_scalar(5).iter().to_vec(), vec![-4, -7, -2]);
    assert_eq!(a.clone().mul(-3).iter().to_vec(), vec![-3, 6, -9]);
    assert_eq!(b.div(7).iter().to_vec(), vec![1, 2, -4]);
}

#[test]
fn division_rounds_toward_zero() {
    let a = BiVector::<3>::new(vec![-7, 7, 6]);
    assert_eq!(a.clone().div(2).iter().to_vec(), vec![-3, 3, 3]);
    assert_eq!(a.div(-2).iter().to_vec(), vec![3, -3, -3]);
}

#[test]
fn compound_assignment() {
    let mut a = BiVector::<3>::new(vec![1, 2, 3]);
    a.add_assign(BiVector::new(vec![1, 1, 1]));
    assert_eq!(a.iter().to_vec(), vec![2, 3, 4]);
    a.sub_assign(BiVector::new(vec![2, 2, 2]));
    assert_eq!(a.iter().to_vec(), vec![0, 1, 2]);
    a.add_assign_scalar(3);
    assert_eq!(a.iter().to_vec(), vec![3, 4, 5]);
    a.sub_assign_scalar(1);
    assert_eq!(a.iter().to_vec(), vec![2, 3, 4]);
    a.mul_assign(4);
    assert_eq!(a.iter().to_vec(), vec![8, 12, 16]);
    a.div_assign(3);
    assert_eq!(a.iter().to_vec(), vec![2, 4, 5]);
}

#[test]
fn equality_is_position_wise() {
    let a = BiVector::<3>::new(vec![1, 2, 3]);
    assert_eq!(a, BiVector::new(vec![1, 2, 3]));
    assert_ne!(a, BiVector::new(vec![1, 3, 2]));
}

#[test]
fn magnitude_of_a_pythagorean_bivector() {
    let b = BiVector::<3>::new(vec![3, 4, 0]);
    assert_eq!(b.norm_squared(), 25);
    assert_eq!(b.magnitude(), 5);
}

#[test]
fn magnitude_rounds_down() {
    let b = BiVector::<3>::new(vec![1, 1, 1]);
    assert_eq!(b.norm_squared(), 3);
    assert_eq!(b.magnitude(), 1);
    let c = BiVector::<4>::new(vec![2, -3, 1, 5, 0, -4]);
    assert_eq!(c.norm_squared(), 55);
    assert_eq!(c.magnitude(), 7);
}

#[test]
fn magnitude_is_zero_only_for_the_zero_bivector() {
    assert_eq!(BiVector::<3>::zero().magnitude(), 0);
    assert_eq!(BiVector::<3>::new(vec![0, -1, 0]).magnitude(), 1);
    assert!(BiVector::<3>::new(vec![-5, 2, -7]).magnitude() >= 0);
}

#[test]
fn vector_wedge_bivector_is_the_volume() {
    let a = Vector::<3>::new([1, 2, 3]);
    let b = Vector::<3>::new([0, 1, 4]);
    let c = Vector::<3>::new([5, 6, 0]);
    let bc = b.exterior_product(c);
    let abc = a.exterior_product(bc.clone());
    assert_eq!(*abc.deref(), 1);
    assert_eq!(bc.exterior_product(a), TriVector::<3>::new(1));
}

#[test]
fn bivector_wedge_vector_in_four_dimensions() {
    let bv = BiVector::<4>::new(vec![1, 2, 3, 4, 5, 6]);
    let a = Vector::<4>::new([7, 8, 9, 10]);
    // a[x] B[yz] - a[y] B[xz] + a[z] B[xy] = 7 * 4 - 8 * 2 + 9 * 1
    assert_eq!(*bv.exterior_product(a).deref(), 21);
}

#[test]
fn yz_is_the_pair_one_two_in_four_dimensions() {
    let mut b = BiVector::<4>::new(vec![0, 0, 0, 1, 0, 0]);
    assert_eq!(*b.yz(), 1);
    assert_eq!((*b.xy(), *b.xz()), (0, 0));
    *b.yz_mut() = 7;
    assert_eq!(b.iter().to_vec(), vec![0, 0, 0, 7, 0, 0]);
}
