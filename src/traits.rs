//! Accessors for named basis components and for the grade parts of composite
//! elements.
//!
//! Each accessor states its result through a spec function that the
//! implementing type defines; a `*Mut` accessor also states, through
//! `*_updated`, how a write through the returned reference changes the owner.

use vstd::prelude::*;

use crate::bivector::BiVector;
use crate::trivector::TriVector;
use crate::vector::Vector;

verus! {

/// The `e_x ^ e_y` coefficient.
pub trait XY<T> {
    spec fn has_xy(&self) -> bool;

    spec fn spec_xy(&self) -> T;

    fn xy(&self) -> (r: &T)
        requires
            self.has_xy(),
        ensures
            *r == self.spec_xy(),
    ;
}

/// Write access to the `e_x ^ e_y` coefficient.
pub trait XYMut<T>: Sized {
    spec fn has_xy_mut(&self) -> bool;

    spec fn spec_xy_mut(&self) -> T;

    spec fn xy_updated(&self, new: Self, v: T) -> bool;

    fn xy_mut(&mut self) -> (r: &mut T)
        requires
            old(self).has_xy_mut(),
        ensures
            *r == old(self).spec_xy_mut(),
            old(self).xy_updated(*final(self), *final(r)),
    ;
}

/// The `e_x ^ e_z` coefficient.
pub trait XZ<T> {
    spec fn has_xz(&self) -> bool;

    spec fn spec_xz(&self) -> T;

    fn xz(&self) -> (r: &T)
        requires
            self.has_xz(),
        ensures
            *r == self.spec_xz(),
    ;
}

/// Write access to the `e_x ^ e_z` coefficient.
pub trait XZMut<T>: Sized {
    spec fn has_xz_mut(&self) -> bool;

    spec fn spec_xz_mut(&self) -> T;

    spec fn xz_updated(&self, new: Self, v: T) -> bool;

    fn xz_mut(&mut self) -> (r: &mut T)
        requires
            old(self).has_xz_mut(),
        ensures
            *r == old(self).spec_xz_mut(),
            old(self).xz_updated(*final(self), *final(r)),
    ;
}

/// The `e_y ^ e_z` coefficient.
pub trait YZ<T> {
    spec fn has_yz(&self) -> bool;

    spec fn spec_yz(&self) -> T;

    fn yz(&self) -> (r: &T)
        requires
            self.has_yz(),
        ensures
            *r == self.spec_yz(),
    ;
}

/// Write access to the `e_y ^ e_z` coefficient.
pub trait YZMut<T>: Sized {
    spec fn has_yz_mut(&self) -> bool;

    spec fn spec_yz_mut(&self) -> T;

    spec fn yz_updated(&self, new: Self, v: T) -> bool;

    fn yz_mut(&mut self) -> (r: &mut T)
        requires
            old(self).has_yz_mut(),
        ensures
            *r == old(self).spec_yz_mut(),
            old(self).yz_updated(*final(self), *final(r)),
    ;
}

/// The scalar (grade-0) part.
pub trait ScalarComponent<T> {
    spec fn spec_scalar(&self) -> T;

    fn scalar(&self) -> (r: &T)
        ensures
            *r == self.spec_scalar(),
    ;
}

/// Write access to the scalar (grade-0) part.
pub trait ScalarComponentMut<T>: Sized {
    spec fn spec_scalar_mut(&self) -> T;

    spec fn scalar_updated(&self, new: Self, v: T) -> bool;

    fn scalar_mut(&mut self) -> (r: &mut T)
        ensures
            *r == old(self).spec_scalar_mut(),
            old(self).scalar_updated(*final(self), *final(r)),
    ;
}

/// The vector (grade-1) part.
pub trait VectorComponent<const N: usize> {
    spec fn spec_vector(&self) -> Vector<N>;

    fn vector(&self) -> (r: &Vector<N>)
        ensures
            *r == self.spec_vector(),
    ;
}

/// Write access to the vector (grade-1) part.
pub trait VectorComponentMut<const N: usize>: Sized {
    spec fn spec_vector_mut(&self) -> Vector<N>;

    spec fn vector_updated(&self, new: Self, v: Vector<N>) -> bool;

    fn vector_mut(&mut self) -> (r: &mut Vector<N>)
        ensures
            *r == old(self).spec_vector_mut(),
            old(self).vector_updated(*final(self), *final(r)),
    ;
}

/// The bivector (grade-2) part.
pub trait BiVectorComponent<const N: usize> {
    spec fn spec_bivector(&self) -> BiVector<N>;

    fn bivector(&self) -> (r: &BiVector<N>)
        ensures
            *r == self.spec_bivector(),
    ;
}

/// Write access to the bivector (grade-2) part.
pub trait BiVectorComponentMut<const N: usize>: Sized {
    spec fn spec_bivector_mut(&self) -> BiVector<N>;

    spec fn bivector_updated(&self, new: Self, v: BiVector<N>) -> bool;

    fn bivector_mut(&mut self) -> (r: &mut BiVector<N>)
        ensures
            *r == old(self).spec_bivector_mut(),
            old(self).bivector_updated(*final(self), *final(r)),
    ;
}

/// The trivector (grade-3) part.
pub trait TriVectorComponent<const N: usize> {
    spec fn spec_trivector(&self) -> TriVector<N>;

    fn trivector(&self) -> (r: &TriVector<N>)
        ensures
            *r == self.spec_trivector(),
    ;
}

/// Write access to the trivector (grade-3) part.
pub trait TriVectorComponentMut<const N: usize>: Sized {
    spec fn spec_trivector_mut(&self) -> TriVector<N>;

    spec fn trivector_updated(&self, new: Self, v: TriVector<N>) -> bool;

    fn trivector_mut(&mut self) -> (r: &mut TriVector<N>)
        ensures
            *r == old(self).spec_trivector_mut(),
            old(self).trivector_updated(*final(self), *final(r)),
    ;
}

impl ScalarComponent<i64> for i64 {
    open spec fn spec_scalar(&self) -> i64 {
        *self
    }

    /// A scalar is its own scalar part.
    fn scalar(&self) -> (r: &i64) {
        self
    }
}

impl ScalarComponentMut<i64> for i64 {
    open spec fn spec_scalar_mut(&self) -> i64 {
        *self
    }

    open spec fn scalar_updated(&self, new: Self, v: i64) -> bool {
        new == v
    }

    /// A scalar is its own scalar part.
    fn scalar_mut(&mut self) -> (r: &mut i64) {
        self
    }
}

} // verus!
