use geometric_algebra::bivector::BiVector;
use geometric_algebra::rotor::{Rotor, Rotor3};
use geometric_algebra::traits::{
    BiVectorComponent, BiVectorComponentMut, ScalarComponent, ScalarComponentMut,
};

#[test]
fn conjugate_twice_is_identity() {
    let r = Rotor::<3>::new(4, BiVector::new(vec![1, -2, 3]));
    let c = r.clone().conjugate();
    assert_eq!(c.bivector().iter().to_vec(), vec![-1, 2, -3]);
    assert_eq!(*c.scalar(), 4);
    assert_eq!(c.conjugate(), r);
}

#[test]
fn rotor_magnitude_adds_the_two_roots() {
    let r: Rotor3 = Rotor::new(9, BiVector::new(vec![3, 4, 0]));
    assert_eq!(r.magnitude(), 8);
    let s = Rotor::<3>::new(10, BiVector::new(vec![1, 1, 1]));
    assert_eq!(s.magnitude(), 4);
}

#[test]
fn normalize_divides_by_the_magnitude() {
    let r = Rotor::<3>::new(100, BiVector::new(vec![-60, 80, 0]));
    // magnitude = 10 + 100
    let n = r.normalize();
    assert_eq!(n, Rotor::new(0, BiVector::new(vec![0, 0, 0])));
    let s = Rotor::<3>::new(4, BiVector::new(vec![0, 0, 0]));
    assert_eq!(s.normalize(), Rotor::new(2, BiVector::new(vec![0, 0, 0])));
    let t = Rotor::<3>::new(0, BiVector::new(vec![-6, 8, 0]));
    assert_eq!(t.normalize(), Rotor::new(0, BiVector::new(vec![0, 0, 0])));
    let u = Rotor::<3>::new(1, BiVector::new(vec![-14, 0, 0]));
    // magnitude = 1 + 14
    assert_eq!(u.normalize(), Rotor::new(0, BiVector::new(vec![0, 0, 0])));
    let w = Rotor::<3>::new(64, BiVector::new(vec![-30, 40, 0]));
    // magnitude = 8 + 50
    assert_eq!(w.normalize(), Rotor::new(1, BiVector::new(vec![0, 0, 0])));
}

#[test]
fn rotor_parts_can_be_written() {
    let mut r = Rotor::<3>::new_const(1, BiVector::new(vec![1, 2, 3]));
    *r.scalar_mut() = 7;
    *r.bivector_mut() = BiVector::new(vec![9, 8, 7]);
    assert_eq!(*r.scalar(), 7);
    assert_eq!(r.bivector().iter().to_vec(), vec![9, 8, 7]);
}

#[test]
fn zero_rotor() {
    let z = Rotor::<4>::zero();
    assert_eq!(*z.scalar(), 0);
    assert_eq!(z.bivector().iter().to_vec(), vec![0; 6]);
    assert_eq!(z.magnitude(), 0);
}
