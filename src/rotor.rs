//! Rotors: a scalar part and a bivector part.

use vstd::prelude::*;

use crate::bivector::BiVector;
use crate::components::{
    all_in_i64,
    div_i64,
    div_seq,
    div_toward_zero,
    in_i64,
    isqrt,
    lemma_floor_sqrt_bound,
    lemma_isqrt,
    neg_seq,
    norm_squared,
};
use crate::roots::floor_sqrt;
use crate::traits::{BiVectorComponent, BiVectorComponentMut, ScalarComponent, ScalarComponentMut};

verus! {

/// `isqrt(s) + |B|`: the rotor magnitude, the scalar part's square root plus
/// the bivector part's norm, each rounded down.
pub open spec fn rotor_magnitude(v: (int, Seq<int>)) -> int {
    isqrt(v.0) + isqrt(norm_squared(v.1))
}

/// The rotor with its bivector part negated.
pub open spec fn conjugate_view(v: (int, Seq<int>)) -> (int, Seq<int>) {
    (v.0, neg_seq(v.1))
}

/// Both parts divided by `m`, rounding toward zero.
pub open spec fn normalize_view(v: (int, Seq<int>), m: int) -> (int, Seq<int>) {
    (div_toward_zero(v.0, m), div_seq(v.1, m))
}

/// A rotor of dimension `N`: a scalar and a bivector.
#[derive(Debug)]
pub struct Rotor<const N: usize>(i64, BiVector<N>);

impl<const N: usize> Rotor<N> {
    pub closed spec fn scalar_part(&self) -> i64 {
        self.0
    }

    pub closed spec fn bivector_part(&self) -> BiVector<N> {
        self.1
    }

    pub open spec fn view(&self) -> (int, Seq<int>) {
        (self.scalar_part() as int, self.bivector_part()@)
    }

    /// A rotor with the scalar part `scalar` and the bivector part `bivector`.
    pub fn new(scalar: i64, bivector: BiVector<N>) -> (r: Self)
        ensures
            r.scalar_part() == scalar,
            r.bivector_part() == bivector,
    {
        Rotor(scalar, bivector)
    }

    /// A rotor with the scalar part `scalar` and the bivector part `bivector`.
    pub fn new_const(scalar: i64, bivector: BiVector<N>) -> (r: Self)
        ensures
            r.scalar_part() == scalar,
            r.bivector_part() == bivector,
    {
        Rotor(scalar, bivector)
    }

    /// The rotor whose parts are all zero.
    pub fn zero() -> (r: Self)
        requires
            N * (N - 1) <= usize::MAX,
        ensures
            r@ == (0int, crate::components::zeros(crate::combinatorics::bivector_len(N as int))),
    {
        Rotor(0, BiVector::zero())
    }

    /// `isqrt(scalar) + |bivector|`, each part's root rounded down.
    pub fn magnitude(&self) -> (r: i64)
        requires
            self@.0 >= 0,
            in_i64(norm_squared(self@.1)),
        ensures
            r as int == rotor_magnitude(self@),
            r >= 0,
    {
        let a = floor_sqrt(self.0);
        let b = self.1.magnitude();
        proof {
            lemma_isqrt(a as int, self.0 as int);
            lemma_floor_sqrt_bound(a as int, self.0 as int);
            lemma_floor_sqrt_bound(b as int, norm_squared(self@.1));
        }
        a + b
    }

    /// Both parts divided by `magnitude()`, rounding toward zero.
    pub fn normalize(self) -> (r: Self)
        requires
            self@.0 >= 0,
            in_i64(norm_squared(self@.1)),
            rotor_magnitude(self@) != 0,
        ensures
            r@ == normalize_view(self@, rotor_magnitude(self@)),
    {
        let m = self.magnitude();
        let s = div_i64(self.0, m);
        let b = self.1.div(m);
        Rotor(s, b)
    }

    /// The rotor with its bivector part negated.
    pub fn conjugate(self) -> (r: Self)
        requires
            all_in_i64(neg_seq(self@.1)),
        ensures
            r@ == conjugate_view(self@),
    {
        Rotor(self.0, self.1.neg())
    }
}

impl<const N: usize> Clone for Rotor<N> {
    fn clone(&self) -> (r: Self)
        ensures
            r@ == self@,
    {
        Rotor(self.0, self.1.clone())
    }
}

impl<const N: usize> PartialEq for Rotor<N> {
    fn eq(&self, other: &Self) -> (r: bool) {
        self.0 == other.0 && self.1 == other.1
    }
}

impl<const N: usize> vstd::std_specs::cmp::PartialEqSpecImpl for Rotor<N> {
    open spec fn obeys_eq_spec() -> bool {
        true
    }

    open spec fn eq_spec(&self, other: &Rotor<N>) -> bool {
        self@ == other@
    }
}

impl<const N: usize> ScalarComponent<i64> for Rotor<N> {
    open spec fn spec_scalar(&self) -> i64 {
        self.scalar_part()
    }

    /// The scalar part.
    fn scalar(&self) -> (r: &i64) {
        &self.0
    }
}

impl<const N: usize> ScalarComponentMut<i64> for Rotor<N> {
    open spec fn spec_scalar_mut(&self) -> i64 {
        self.scalar_part()
    }

    open spec fn scalar_updated(&self, new: Self, v: i64) -> bool {
        &&& new.scalar_part() == v
        &&& new.bivector_part() == self.bivector_part()
    }

    /// The scalar part, for writing in place.
    fn scalar_mut(&mut self) -> (r: &mut i64) {
        &mut self.0
    }
}

impl<const N: usize> BiVectorComponent<N> for Rotor<N> {
    open spec fn spec_bivector(&self) -> BiVector<N> {
        self.bivector_part()
    }

    /// The bivector part.
    fn bivector(&self) -> (r: &BiVector<N>) {
        &self.1
    }
}

impl<const N: usize> BiVectorComponentMut<N> for Rotor<N> {
    open spec fn spec_bivector_mut(&self) -> BiVector<N> {
        self.bivector_part()
    }

    open spec fn bivector_updated(&self, new: Self, v: BiVector<N>) -> bool {
        &&& new.bivector_part() == v
        &&& new.scalar_part() == self.scalar_part()
    }

    /// The bivector part, for writing in place.
    fn bivector_mut(&mut self) -> (r: &mut BiVector<N>) {
        &mut self.1
    }
}

/// A rotor of the plane.
pub type Rotor2 = Rotor<2>;

/// A rotor of three-dimensional space.
pub type Rotor3 = Rotor<3>;

/// A rotor of four-dimensional space.
pub type Rotor4 = Rotor<4>;

} // verus!
