//! Grade-2 elements: one coefficient per unordered pair of basis axes, in the
//! canonical order of `combinatorics::canonical_pairs`.

use vstd::prelude::*;

use crate::combinatorics::{bivector_len, pair_index, pair_row, pair_rows};
use crate::components::{
    add_components,
    add_scalar_components,
    add_scalar_seq,
    add_seq,
    all_in_i64,
    div_components,
    div_ok,
    div_seq,
    in_i64,
    int_view,
    is_floor_sqrt,
    isqrt,
    neg_components,
    neg_seq,
    norm_squared,
    norm_squared_components,
    scale_components,
    scale_seq,
    sub_components,
    sub_scalar_components,
    sub_scalar_seq,
    sub_seq,
    zeros,
};
use crate::ops::ExteriorProduct;
use crate::roots::floor_sqrt;
use crate::trivector::TriVector;
use crate::vector::Vector;
use crate::traits::{XY, XYMut, XZ, XZMut, YZ, YZMut};

verus! {

/// A bivector of dimension `N`: `N * (N - 1) / 2` coefficients, the one of
/// `e_i ^ e_j` (`i < j`) at the index of `(i, j)` in the canonical order.
#[derive(Debug)]
pub struct BiVector<const N: usize>(Vec<i64>);

impl<const N: usize> BiVector<N> {
    pub closed spec fn view(&self) -> Seq<int> {
        int_view(self.0@)
    }

    /// The number of coefficients is the one for dimension `N`.
    pub open spec fn wf(&self) -> bool {
        self@.len() == bivector_len(N as int)
    }

    /// A bivector with the coefficients `src`, in canonical order.
    pub fn new(src: Vec<i64>) -> (r: Self)
        requires
            src@.len() == bivector_len(N as int),
        ensures
            r@ == int_view(src@),
    {
        BiVector(src)
    }

    /// A bivector with the coefficients `src`, in canonical order.
    pub fn new_const(src: Vec<i64>) -> (r: Self)
        requires
            src@.len() == bivector_len(N as int),
        ensures
            r@ == int_view(src@),
    {
        BiVector(src)
    }

    /// The bivector whose coefficients are all zero.
    pub fn zero() -> (r: Self)
        requires
            N * (N - 1) <= usize::MAX,
        ensures
            r@ == zeros(bivector_len(N as int)),
    {
        let len: usize = if N == 0 {
            0
        } else {
            N * (N - 1) / 2
        };
        let mut c: Vec<i64> = Vec::new();
        let mut k: usize = 0;
        while k < len
            invariant
                k <= len,
                len == bivector_len(N as int),
                int_view(c@) == zeros(k as int),
            decreases len - k,
        {
            let ghost before = c@;
            c.push(0);
            assert(int_view(c@) =~= int_view(before).push(0));
            assert(int_view(c@) =~= zeros(k + 1));
            k = k + 1;
        }
        BiVector(c)
    }

    /// The coefficients, in canonical order.
    pub fn iter(&self) -> (r: &[i64])
        ensures
            int_view(r@) == self@,
    {
        self.0.as_slice()
    }

    /// The coefficients in canonical order, for writing in place.
    pub fn iter_mut(&mut self) -> (r: &mut [i64])
        ensures
            int_view(r@) == old(self)@,
            final(self)@ == int_view(final(r)@),
    {
        self.0.as_mut_slice()
    }

    /// The coefficient at storage index `i`.
    pub fn index(&self, i: usize) -> (r: &i64)
        requires
            i < self@.len(),
        ensures
            *r as int == self@[i as int],
    {
        &self.0[i]
    }

    /// The coefficient at storage index `i`, for writing in place.
    pub fn index_mut(&mut self, i: usize) -> (r: &mut i64)
        requires
            i < old(self)@.len(),
        ensures
            *r as int == old(self)@[i as int],
            final(self)@ == old(self)@.update(i as int, *final(r) as int),
    {
        let r = &mut self.0[i];
        r
    }

    /// Every coefficient negated.
    pub fn neg(self) -> (r: Self)
        requires
            all_in_i64(neg_seq(self@)),
        ensures
            r@ == neg_seq(self@),
    {
        BiVector(neg_components(self.0.as_slice()))
    }

    /// Position-wise sum.
    pub fn add(self, rhs: Self) -> (r: Self)
        requires
            self.wf(),
            rhs.wf(),
            all_in_i64(add_seq(self@, rhs@)),
        ensures
            r@ == add_seq(self@, rhs@),
    {
        BiVector(add_components(self.0.as_slice(), rhs.0.as_slice()))
    }

    /// Position-wise difference.
    pub fn sub(self, rhs: Self) -> (r: Self)
        requires
            self.wf(),
            rhs.wf(),
            all_in_i64(sub_seq(self@, rhs@)),
        ensures
            r@ == sub_seq(self@, rhs@),
    {
        BiVector(sub_components(self.0.as_slice(), rhs.0.as_slice()))
    }

    /// `s` added to every coefficient.
    pub fn add_scalar(self, s: i64) -> (r: Self)
        requires
            all_in_i64(add_scalar_seq(self@, s as int)),
        ensures
            r@ == add_scalar_seq(self@, s as int),
    {
        BiVector(add_scalar_components(self.0.as_slice(), s))
    }

    /// `s` subtracted from every coefficient.
    pub fn sub_scalar(self, s: i64) -> (r: Self)
        requires
            all_in_i64(sub_scalar_seq(self@, s as int)),
        ensures
            r@ == sub_scalar_seq(self@, s as int),
    {
        BiVector(sub_scalar_components(self.0.as_slice(), s))
    }

    /// Every coefficient multiplied by `s`.
    pub fn mul(self, s: i64) -> (r: Self)
        requires
            all_in_i64(scale_seq(self@, s as int)),
        ensures
            r@ == scale_seq(self@, s as int),
    {
        BiVector(scale_components(self.0.as_slice(), s))
    }

    /// Every coefficient divided by `s`, rounding toward zero.
    pub fn div(self, s: i64) -> (r: Self)
        requires
            forall|k: int| 0 <= k < self@.len() ==> div_ok(#[trigger] self@[k], s as int),
        ensures
            r@ == div_seq(self@, s as int),
    {
        let c = self.0.as_slice();
        assert(int_view(c@) == self@);
        BiVector(div_components(c, s))
    }

    /// Adds `rhs` position-wise in place.
    pub fn add_assign(&mut self, rhs: Self)
        requires
            old(self).wf(),
            rhs.wf(),
            all_in_i64(add_seq(old(self)@, rhs@)),
        ensures
            final(self)@ == add_seq(old(self)@, rhs@),
    {
        self.0 = add_components(self.0.as_slice(), rhs.0.as_slice());
    }

    /// Subtracts `rhs` position-wise in place.
    pub fn sub_assign(&mut self, rhs: Self)
        requires
            old(self).wf(),
            rhs.wf(),
            all_in_i64(sub_seq(old(self)@, rhs@)),
        ensures
            final(self)@ == sub_seq(old(self)@, rhs@),
    {
        self.0 = sub_components(self.0.as_slice(), rhs.0.as_slice());
    }

    /// Adds `s` to every coefficient in place.
    pub fn add_assign_scalar(&mut self, s: i64)
        requires
            all_in_i64(add_scalar_seq(old(self)@, s as int)),
        ensures
            final(self)@ == add_scalar_seq(old(self)@, s as int),
    {
        self.0 = add_scalar_components(self.0.as_slice(), s);
    }

    /// Subtracts `s` from every coefficient in place.
    pub fn sub_assign_scalar(&mut self, s: i64)
        requires
            all_in_i64(sub_scalar_seq(old(self)@, s as int)),
        ensures
            final(self)@ == sub_scalar_seq(old(self)@, s as int),
    {
        self.0 = sub_scalar_components(self.0.as_slice(), s);
    }

    /// Multiplies every coefficient by `s` in place.
    pub fn mul_assign(&mut self, s: i64)
        requires
            all_in_i64(scale_seq(old(self)@, s as int)),
        ensures
            final(self)@ == scale_seq(old(self)@, s as int),
    {
        self.0 = scale_components(self.0.as_slice(), s);
    }

    /// Divides every coefficient by `s` in place, rounding toward zero.
    pub fn div_assign(&mut self, s: i64)
        requires
            forall|k: int| 0 <= k < old(self)@.len() ==> div_ok(#[trigger] old(self)@[k], s as int),
        ensures
            final(self)@ == div_seq(old(self)@, s as int),
    {
        let c = self.0.as_slice();
        assert(int_view(c@) == self@);
        self.0 = div_components(c, s);
    }

    /// The squared Euclidean norm: the sum of the squared coefficients.
    pub fn norm_squared(&self) -> (r: i64)
        requires
            in_i64(norm_squared(self@)),
        ensures
            r as int == norm_squared(self@),
    {
        norm_squared_components(self.0.as_slice())
    }

    /// The Euclidean norm, rounded down to an integer.
    pub fn magnitude(&self) -> (r: i64)
        requires
            in_i64(norm_squared(self@)),
        ensures
            is_floor_sqrt(r as int, norm_squared(self@)),
            r as int == isqrt(norm_squared(self@)),
    {
        let ns = self.norm_squared();
        proof {
            crate::components::lemma_sum_squares(self@, self@.len() as int);
        }
        let r = floor_sqrt(ns);
        proof {
            crate::components::lemma_isqrt(r as int, ns as int);
        }
        r
    }
}

/// The `e_x ^ e_y ^ e_z` coefficient of `a ^ B`:
/// `a[x] B[yz] - a[y] B[xz] + a[z] B[xy]`.
pub open spec fn wedge3(a: Seq<int>, bv: Seq<int>, n: int) -> int {
    a[0] * bv[pair_index(n, 1, 2)] - a[1] * bv[pair_index(n, 0, 2)] + a[2] * bv[pair_index(n, 0, 1)]
}

proof fn lemma_low_pair_indices(n: int)
    requires
        n >= 3,
    ensures
        pair_index(n, 0, 1) == 0,
        pair_index(n, 0, 2) == 1,
        pair_index(n, 1, 2) == n - 1,
{
    assert(pair_rows(n, 0).len() == 0);
    assert(pair_rows(n, 1) == pair_rows(n, 0) + pair_row(n, 0));
}

/// In dimension `n >= 3` the pair `(1, 2)` is stored at index `n - 1`, inside
/// the bivector's coefficients.
proof fn lemma_yz_index(n: int)
    requires
        n >= 3,
    ensures
        pair_index(n, 1, 2) == n - 1,
        n - 1 < bivector_len(n),
{
    lemma_low_pair_indices(n);
    assert(n - 1 < bivector_len(n)) by (nonlinear_arith)
        requires
            n >= 3,
    ;
}

/// Every coefficient of a bivector is an `i64`.
pub proof fn lemma_view_in_i64<const N: usize>(v: BiVector<N>, k: int)
    requires
        0 <= k < v@.len(),
    ensures
        in_i64(#[trigger] v@[k]),
{
}

impl<const N: usize> ExteriorProduct<Vector<N>> for BiVector<N> {
    type Output = TriVector<N>;

    open spec fn exterior_product_defined(self, rhs: Vector<N>) -> bool {
        &&& N >= 3
        &&& self.wf()
        &&& in_i64(wedge3(rhs@, self@, N as int))
    }

    /// `B ^ a`, equal to `a ^ B`: the `e_x ^ e_y ^ e_z` coefficient
    /// `a[x] B[yz] - a[y] B[xz] + a[z] B[xy]`.
    fn exterior_product(self, rhs: Vector<N>) -> (r: TriVector<N>)
        ensures
            r@ == wedge3(rhs@, self@, N as int),
    {
        proof {
            lemma_low_pair_indices(N as int);
            crate::combinatorics::lemma_canonical_pairs_len(N as int);
            assert(N as int - 1 < bivector_len(N as int)) by (nonlinear_arith)
                requires
                    N >= 3,
            ;
            crate::components::lemma_i64_product(rhs.0@[0], self.0@[N - 1]);
            crate::components::lemma_i64_product(rhs.0@[1], self.0@[1]);
            crate::components::lemma_i64_product(rhs.0@[2], self.0@[0]);
        }
        let p0 = (rhs.0[0] as i128) * (self.0[N - 1] as i128);
        let p1 = (rhs.0[1] as i128) * (self.0[1] as i128);
        let p2 = (rhs.0[2] as i128) * (self.0[0] as i128);
        let t = p0 - p1;
        assert(t + p2 == wedge3(rhs@, self@, N as int));
        TriVector::new((t + p2) as i64)
    }
}

impl<const N: usize> ExteriorProduct<BiVector<N>> for Vector<N> {
    type Output = TriVector<N>;

    open spec fn exterior_product_defined(self, rhs: BiVector<N>) -> bool {
        &&& N >= 3
        &&& rhs.wf()
        &&& in_i64(wedge3(self@, rhs@, N as int))
    }

    /// `a ^ B`: the `e_x ^ e_y ^ e_z` coefficient
    /// `a[x] B[yz] - a[y] B[xz] + a[z] B[xy]`.
    fn exterior_product(self, rhs: BiVector<N>) -> (r: TriVector<N>)
        ensures
            r@ == wedge3(self@, rhs@, N as int),
    {
        rhs.exterior_product(self)
    }
}

impl<const N: usize> Clone for BiVector<N> {
    fn clone(&self) -> (r: Self)
        ensures
            r@ == self@,
    {
        let c = self.0.clone();
        assert(c@ =~= self.0@);
        BiVector(c)
    }
}

impl<const N: usize> PartialEq for BiVector<N> {
    fn eq(&self, other: &Self) -> (r: bool) {
        if self.0.len() != other.0.len() {
            return false;
        }
        let mut k: usize = 0;
        while k < self.0.len()
            invariant
                k <= self.0@.len() == other.0@.len(),
                forall|j: int| 0 <= j < k ==> self.0@[j] == other.0@[j],
            decreases self.0@.len() - k,
        {
            if self.0[k] != other.0[k] {
                assert(self@[k as int] != other@[k as int]);
                return false;
            }
            k = k + 1;
        }
        assert(self@ =~= other@);
        true
    }
}

impl<const N: usize> vstd::std_specs::cmp::PartialEqSpecImpl for BiVector<N> {
    open spec fn obeys_eq_spec() -> bool {
        true
    }

    open spec fn eq_spec(&self, other: &BiVector<N>) -> bool {
        self@ == other@
    }
}

impl<const N: usize> XY<i64> for BiVector<N> {
    open spec fn has_xy(&self) -> bool {
        self@.len() > 0
    }

    open spec fn spec_xy(&self) -> i64 {
        self@[0] as i64
    }

    /// The coefficient at storage index 0.
    fn xy(&self) -> (r: &i64) {
        self.index(0)
    }
}

impl<const N: usize> XYMut<i64> for BiVector<N> {
    open spec fn has_xy_mut(&self) -> bool {
        self@.len() > 0
    }

    open spec fn spec_xy_mut(&self) -> i64 {
        self@[0] as i64
    }

    open spec fn xy_updated(&self, new: Self, v: i64) -> bool {
        new@ == self@.update(0, v as int)
    }

    /// The coefficient at storage index 0, for writing in place.
    fn xy_mut(&mut self) -> (r: &mut i64) {
        self.index_mut(0)
    }
}

impl<const N: usize> XZ<i64> for BiVector<N> {
    open spec fn has_xz(&self) -> bool {
        self@.len() > 1
    }

    open spec fn spec_xz(&self) -> i64 {
        self@[1] as i64
    }

    /// The coefficient at storage index 1.
    fn xz(&self) -> (r: &i64) {
        self.index(1)
    }
}

impl<const N: usize> XZMut<i64> for BiVector<N> {
    open spec fn has_xz_mut(&self) -> bool {
        self@.len() > 1
    }

    open spec fn spec_xz_mut(&self) -> i64 {
        self@[1] as i64
    }

    open spec fn xz_updated(&self, new: Self, v: i64) -> bool {
        new@ == self@.update(1, v as int)
    }

    /// The coefficient at storage index 1, for writing in place.
    fn xz_mut(&mut self) -> (r: &mut i64) {
        self.index_mut(1)
    }
}

impl<const N: usize> YZ<i64> for BiVector<N> {
    open spec fn has_yz(&self) -> bool {
        N >= 3 && self.wf()
    }

    open spec fn spec_yz(&self) -> i64 {
        self@[pair_index(N as int, 1, 2)] as i64
    }

    /// The coefficient of the pair `(1, 2)`, at storage index `N - 1`.
    fn yz(&self) -> (r: &i64) {
        proof {
            lemma_yz_index(N as int);
        }
        self.index(N - 1)
    }
}

impl<const N: usize> YZMut<i64> for BiVector<N> {
    open spec fn has_yz_mut(&self) -> bool {
        N >= 3 && self.wf()
    }

    open spec fn spec_yz_mut(&self) -> i64 {
        self@[pair_index(N as int, 1, 2)] as i64
    }

    open spec fn yz_updated(&self, new: Self, v: i64) -> bool {
        new@ == self@.update(pair_index(N as int, 1, 2), v as int)
    }

    /// The coefficient of the pair `(1, 2)`, at storage index `N - 1`, for
    /// writing in place.
    fn yz_mut(&mut self) -> (r: &mut i64) {
        proof {
            lemma_yz_index(N as int);
        }
        self.index_mut(N - 1)
    }
}

/// A bivector of the plane.
pub type BiVector2 = BiVector<2>;

/// A bivector of three-dimensional space.
pub type BiVector3 = BiVector<3>;

/// A bivector of four-dimensional space.
pub type BiVector4 = BiVector<4>;

} // verus!
