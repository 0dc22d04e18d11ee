//! Grade-3 elements, held as a single pseudoscalar coefficient.

use vstd::prelude::*;

use crate::bivector::BiVector;
use crate::combinatorics::bivector_len;
use crate::components::{
    all_in_i64,
    div_ok,
    div_toward_zero,
    div_i64,
    in_i64,
    int_view,
    neg_seq,
    scale_components,
    scale_seq,
};
use crate::ops::{GeometricAdd, GeometricProduct, GeometricSub};
use crate::vector::Vector;

verus! {

/// The coefficients of `t * v`, aligned to bivector storage: position `k`
/// holds `t * v[k]` while `v` has a coefficient there, and zero after.
pub open spec fn trivector_times_vector(t: int, v: Seq<int>, n: int) -> Seq<int> {
    Seq::new(
        bivector_len(n) as nat,
        |k: int|
            if k < v.len() {
                v[k] * t
            } else {
                0
            },
    )
}

/// A trivector of dimension `N`.
#[derive(Clone, Copy, Debug)]
pub struct TriVector<const N: usize>(i64);

impl<const N: usize> TriVector<N> {
    pub closed spec fn view(&self) -> int {
        self.0 as int
    }

    /// A trivector with the coefficient `src`.
    pub fn new(src: i64) -> (r: Self)
        ensures
            r@ == src as int,
    {
        TriVector(src)
    }

    /// A trivector with the coefficient `src`.
    pub fn new_const(src: i64) -> (r: Self)
        ensures
            r@ == src as int,
    {
        TriVector(src)
    }

    /// The zero trivector.
    pub fn zero() -> (r: Self)
        ensures
            r@ == 0,
    {
        TriVector(0)
    }

    /// The coefficient.
    pub fn deref(&self) -> (r: &i64)
        ensures
            *r as int == self@,
    {
        &self.0
    }

    /// The coefficient, for writing in place.
    pub fn deref_mut(&mut self) -> (r: &mut i64)
        ensures
            *r as int == old(self)@,
            final(self)@ == *final(r) as int,
    {
        &mut self.0
    }

    /// The negated trivector.
    pub fn neg(self) -> (r: Self)
        requires
            in_i64(-self@),
        ensures
            r@ == -self@,
    {
        TriVector(-self.0)
    }

    /// Sum of coefficients.
    pub fn add(self, rhs: Self) -> (r: Self)
        requires
            in_i64(self@ + rhs@),
        ensures
            r@ == self@ + rhs@,
    {
        TriVector(self.0 + rhs.0)
    }

    /// Difference of coefficients.
    pub fn sub(self, rhs: Self) -> (r: Self)
        requires
            in_i64(self@ - rhs@),
        ensures
            r@ == self@ - rhs@,
    {
        TriVector(self.0 - rhs.0)
    }

    /// `s` added to the coefficient.
    pub fn add_scalar(self, s: i64) -> (r: Self)
        requires
            in_i64(self@ + s),
        ensures
            r@ == self@ + s,
    {
        TriVector(self.0 + s)
    }

    /// `s` subtracted from the coefficient.
    pub fn sub_scalar(self, s: i64) -> (r: Self)
        requires
            in_i64(self@ - s),
        ensures
            r@ == self@ - s,
    {
        TriVector(self.0 - s)
    }

    /// The coefficient multiplied by `s`.
    pub fn mul(self, s: i64) -> (r: Self)
        requires
            in_i64(self@ * s),
        ensures
            r@ == self@ * s,
    {
        TriVector(self.0 * s)
    }

    /// The coefficient divided by `s`, rounding toward zero.
    pub fn div(self, s: i64) -> (r: Self)
        requires
            div_ok(self@, s as int),
        ensures
            r@ == div_toward_zero(self@, s as int),
    {
        TriVector(div_i64(self.0, s))
    }

    /// Adds `rhs` in place.
    pub fn add_assign(&mut self, rhs: Self)
        requires
            in_i64(old(self)@ + rhs@),
        ensures
            final(self)@ == old(self)@ + rhs@,
    {
        self.0 = self.0 + rhs.0;
    }

    /// Subtracts `rhs` in place.
    pub fn sub_assign(&mut self, rhs: Self)
        requires
            in_i64(old(self)@ - rhs@),
        ensures
            final(self)@ == old(self)@ - rhs@,
    {
        self.0 = self.0 - rhs.0;
    }
}

impl<const N: usize> PartialEq for TriVector<N> {
    fn eq(&self, other: &Self) -> (r: bool) {
        self.0 == other.0
    }
}

impl<const N: usize> vstd::std_specs::cmp::PartialEqSpecImpl for TriVector<N> {
    open spec fn obeys_eq_spec() -> bool {
        true
    }

    open spec fn eq_spec(&self, other: &TriVector<N>) -> bool {
        self@ == other@
    }
}

impl<const N: usize> GeometricAdd<Vector<N>> for TriVector<N> {
    type Output = (Vector<N>, TriVector<N>);

    open spec fn geometric_add_defined(self, rhs: Vector<N>) -> bool {
        true
    }

    /// `t + v`: the grades differ, so both parts are kept as they are.
    fn geometric_add(self, rhs: Vector<N>) -> (r: (Vector<N>, TriVector<N>))
        ensures
            r.0@ == rhs@,
            r.1@ == self@,
    {
        (rhs, self)
    }
}

impl<const N: usize> GeometricSub<Vector<N>> for TriVector<N> {
    type Output = (Vector<N>, TriVector<N>);

    open spec fn geometric_sub_defined(self, rhs: Vector<N>) -> bool {
        all_in_i64(neg_seq(rhs@))
    }

    /// `t - v`: the vector part is `-v`, the trivector part `t`.
    fn geometric_sub(self, rhs: Vector<N>) -> (r: (Vector<N>, TriVector<N>))
        ensures
            r.0@ == neg_seq(rhs@),
            r.1@ == self@,
    {
        (rhs.neg(), self)
    }
}

impl<const N: usize> GeometricAdd<BiVector<N>> for TriVector<N> {
    type Output = (BiVector<N>, TriVector<N>);

    open spec fn geometric_add_defined(self, rhs: BiVector<N>) -> bool {
        true
    }

    /// `t + B`: the grades differ, so both parts are kept as they are.
    fn geometric_add(self, rhs: BiVector<N>) -> (r: (BiVector<N>, TriVector<N>))
        ensures
            r.0@ == rhs@,
            r.1@ == self@,
    {
        (rhs, self)
    }
}

impl<const N: usize> GeometricSub<BiVector<N>> for TriVector<N> {
    type Output = (BiVector<N>, TriVector<N>);

    open spec fn geometric_sub_defined(self, rhs: BiVector<N>) -> bool {
        all_in_i64(neg_seq(rhs@))
    }

    /// `t - B`: the bivector part is `-B`, the trivector part `t`.
    fn geometric_sub(self, rhs: BiVector<N>) -> (r: (BiVector<N>, TriVector<N>))
        ensures
            r.0@ == neg_seq(rhs@),
            r.1@ == self@,
    {
        (rhs.neg(), self)
    }
}

impl<const N: usize> GeometricProduct<Vector<N>> for TriVector<N> {
    type Output = BiVector<N>;

    open spec fn geometric_product_defined(self, rhs: Vector<N>) -> bool {
        &&& N * (N - 1) <= usize::MAX
        &&& forall|k: int|
            0 <= k < N && k < bivector_len(N as int) ==> in_i64(#[trigger] rhs@[k] * self@)
    }

    /// `t v`: each vector coefficient scaled by `t`, laid out in bivector
    /// storage position by position.
    fn geometric_product(self, rhs: Vector<N>) -> (r: BiVector<N>)
        ensures
            r@ == trivector_times_vector(self@, rhs@, N as int),
    {
        let mut res = BiVector::<N>::zero();
        let sl = res.iter();
        let len = sl.len();
        proof {
            crate::combinatorics::lemma_bivector_len_nonneg(N as int);
            assert(rhs.0@.len() == N);
            assert(int_view(sl@).len() == sl@.len());
            assert(res@.len() == bivector_len(N as int));
            assert(len == res@.len());
            assert forall|j: int| 0 <= j < len implies #[trigger] res@[j] == 0 by {
                assert(res@[j] == crate::components::zeros(bivector_len(N as int))[j]);
            }
        }
        let mut k: usize = 0;
        while k < len && k < N
            invariant
                k <= len,
                k <= N,
                rhs@.len() == N,
                len == bivector_len(N as int),
                res@.len() == len,
                forall|k: int|
                    0 <= k < N && k < bivector_len(N as int) ==> in_i64(#[trigger] rhs@[k] * self@),
                forall|j: int|
                    0 <= j < len ==> #[trigger] res@[j] == if j < k {
                        rhs@[j] * self@
                    } else {
                        0
                    },
            decreases len - k,
        {
            assert(in_i64(rhs@[k as int] * self@));
            let x = rhs.0[k] * self.0;
            let slot = res.index_mut(k);
            *slot = x;
            k = k + 1;
        }
        assert forall|j: int| 0 <= j < len implies #[trigger] res@[j] == trivector_times_vector(
            self@,
            rhs@,
            N as int,
        )[j] by {

        }
        assert(res@ =~= trivector_times_vector(self@, rhs@, N as int));
        res
    }
}

impl<const N: usize> GeometricProduct<BiVector<N>> for TriVector<N> {
    type Output = Vec<i64>;

    open spec fn geometric_product_defined(self, rhs: BiVector<N>) -> bool {
        &&& all_in_i64(scale_seq(rhs@, self@))
        &&& all_in_i64(neg_seq(scale_seq(rhs@, self@)))
    }

    /// `t B`: each bivector coefficient scaled by `t` and negated, as a
    /// vector aligned to bivector storage.
    fn geometric_product(self, rhs: BiVector<N>) -> (r: Vec<i64>)
        ensures
            int_view(r@) == neg_seq(scale_seq(rhs@, self@)),
    {
        let scaled = scale_components(rhs.iter(), self.0);
        crate::components::neg_components(scaled.as_slice())
    }
}

impl<const N: usize> GeometricProduct<TriVector<N>> for TriVector<N> {
    type Output = i64;

    open spec fn geometric_product_defined(self, rhs: TriVector<N>) -> bool {
        in_i64(-(self@ * rhs@))
    }

    /// `a b = -(a * b)`: the pseudoscalar squares to `-1`.
    fn geometric_product(self, rhs: TriVector<N>) -> (r: i64)
        ensures
            r as int == -(self@ * rhs@),
    {
        let p = (self.0 as i128) * (rhs.0 as i128);
        proof {
            crate::components::lemma_i64_product(self.0, rhs.0);
        }
        (-p) as i64
    }
}

/// A trivector of three-dimensional space.
pub type TriVector3 = TriVector<3>;

/// A trivector of four-dimensional space.
pub type TriVector4 = TriVector<4>;

} // verus!
