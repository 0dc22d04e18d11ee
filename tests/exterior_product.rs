use geometric_algebra::bivector::BiVector;
use geometric_algebra::ops::ExteriorProduct;
use geometric_algebra::vector::Vector;

#[test]
fn exterior_product_2() {
    let lhs = Vector::<2>::new([4, 5]);
    let rhs = Vector::<2>::new([8, 3]);

    let result = lhs.exterior_product(rhs);

    assert_eq!(
        result,
        BiVector::<2>::new(vec![
            lhs.index(0) * rhs.index(1) - lhs.index(1) * rhs.index(0), // xy - yx
        ])
    );
}

#[test]
fn exterior_product_3() {
    let lhs = Vector::<3>::new([4, 5, 6]);
    let rhs = Vector::<3>::new([8, 3, 1]);

    let result = lhs.exterior_product(rhs);

    assert_eq!(
        result,
        BiVector::<3>::new(vec![
            lhs.index(0) * rhs.index(1) - lhs.index(1) * rhs.index(0), // xy - yx
            lhs.index(0) * rhs.index(2) - lhs.index(2) * rhs.index(0), // xz - zx
            lhs.index(1) * rhs.index(2) - lhs.index(2) * rhs.index(1), // yz - zy
        ])
    );
}

#[test]
fn exterior_product_4() {
    let lhs = Vector::<4>::new([4, 5, 6, 12]);
    let rhs = Vector::<4>::new([8, 3, 1, 2]);

    let result = lhs.exterior_product(rhs);

    assert_eq!(
        result,
        BiVector::<4>::new(vec![
            lhs.index(0) * rhs.index(1) - lhs.index(1) * rhs.index(0), // xy - yx
            lhs.index(0) * rhs.index(2) - lhs.index(2) * rhs.index(0), // xz - zx
            lhs.index(0) * rhs.index(3) - lhs.index(3) * rhs.index(0), // xw - wx
            lhs.index(1) * rhs.index(2) - lhs.index(2) * rhs.index(1), // yz - zy
            lhs.index(1) * rhs.index(3) - lhs.index(3) * rhs.index(1), // yw - wy
            lhs.index(2) * rhs.index(3) - lhs.index(3) * rhs.index(2), // zw - wz
        ])
    );
}

#[test]
fn exterior_product_three_exact_values() {
    let r = Vector::<3>::new([4, 5, 6]).exterior_product(Vector::<3>::new([8, 3, 1]));
    assert_eq!(r.iter().to_vec(), vec![-28, -44, -13]);
}

#[test]
fn exterior_product_four_xw_component() {
    let r = Vector::<4>::new([4, 5, 6, 12]).exterior_product(Vector::<4>::new([8, 3, 1, 2]));
    assert_eq!(r.iter().len(), 6);
    assert_eq!(*r.index(2), -88);
    assert_eq!(r.iter().to_vec(), vec![-28, -44, -88, -13, -26, 0]);
}

#[test]
fn exterior_product_one_dimension_is_empty() {
    let r = Vector::<1>::new([7]).exterior_product(Vector::<1>::new([3]));
    assert!(r.iter().is_empty());
}

#[test]
fn exterior_product_antisymmetric() {
    let a = Vector::<4>::new([4, -5, 6, 12]);
    let b = Vector::<4>::new([8, 3, -1, 2]);
    let ab = a.exterior_product(b);
    let ba = b.exterior_product(a);
    assert_eq!(ab, ba.neg());
}

#[test]
fn exterior_product_self_is_zero() {
    let a = Vector::<3>::new([4, -5, 6]);
    assert_eq!(a.exterior_product(a), BiVector::<3>::zero());
}

#[test]
fn exterior_product_bilinear() {
    let a = Vector::<3>::new([1, 2, 3]);
    let a2 = Vector::<3>::new([-4, 0, 7]);
    let b = Vector::<3>::new([5, -6, 2]);
    let lhs = a.add(a2).exterior_product(b);
    let rhs = a.exterior_product(b).add(a2.exterior_product(b));
    assert_eq!(lhs, rhs);
}

#[test]
fn exterior_product_large_coefficients() {
    let big = 3_000_000_000i64;
    let r = Vector::<2>::new([big, 0]).exterior_product(Vector::<2>::new([0, big]));
    assert_eq!(r.iter().to_vec(), vec![big * big]);
}
