//! Grade-1 elements: one coefficient per basis axis.

use vstd::prelude::*;

use crate::bivector::BiVector;
use crate::combinatorics::{
    canonical_pairs,
    lemma_canonical_pair_at,
    lemma_canonical_pairs_len,
    pair_row,
    pair_rows,
};
use crate::components::{
    add_seq,
    all_in_i64,
    dot,
    dot_prefix,
    in_i64,
    int_view,
    lemma_i64_product,
    neg_seq,
    scale_seq,
    sub_seq,
};
use crate::ops::{ExteriorProduct, GeometricProduct};

verus! {

/// The coefficient `a[i] * b[j] - a[j] * b[i]` of the basis blade `e_i ^ e_j`.
pub open spec fn wedge_term(a: Seq<int>, b: Seq<int>, p: (int, int)) -> int {
    a[p.0] * b[p.1] - a[p.1] * b[p.0]
}

/// The wedge coefficients for the pairs `ps`, in their order.
pub open spec fn wedge_terms(a: Seq<int>, b: Seq<int>, ps: Seq<(int, int)>) -> Seq<int> {
    ps.map_values(|p: (int, int)| wedge_term(a, b, p))
}

/// The exterior product `a ^ b`, one coefficient per canonical pair.
pub open spec fn wedge(a: Seq<int>, b: Seq<int>) -> Seq<int> {
    wedge_terms(a, b, canonical_pairs(a.len() as int))
}

/// Entry `(i, j)` of `a (x) b - b (x) a`: `a[i] * b[j] - b[i] * a[j]`.
pub open spec fn antisymmetric_entry(a: Seq<int>, b: Seq<int>, i: int, j: int) -> int {
    a[i] * b[j] - b[i] * a[j]
}

/// A vector of dimension `N`.
#[derive(Clone, Copy, Debug)]
pub struct Vector<const N: usize>(pub [i64; N]);

impl<const N: usize> Vector<N> {
    pub open spec fn view(&self) -> Seq<int> {
        int_view(self.0@)
    }

    /// A vector with the coefficients `src`.
    pub fn new(src: [i64; N]) -> (r: Self)
        ensures
            r@ == int_view(src@),
    {
        Vector(src)
    }

    /// The coefficient on axis `i`.
    pub fn index(&self, i: usize) -> (r: i64)
        requires
            i < N,
        ensures
            r as int == self@[i as int],
    {
        self.0[i]
    }

    /// The vector with every coefficient negated.
    pub fn neg(self) -> (r: Self)
        requires
            all_in_i64(neg_seq(self@)),
        ensures
            r@ == neg_seq(self@),
    {
        let mut c = self.0;
        let mut k: usize = 0;
        while k < N
            invariant
                k <= N,
                all_in_i64(neg_seq(self@)),
                forall|j: int| 0 <= j < k ==> c@[j] as int == -self@[j],
                forall|j: int| k <= j < N ==> c@[j] == self.0@[j],
            decreases N - k,
        {
            assert(in_i64(neg_seq(self@)[k as int]));
            let x = c[k];
            c[k] = -x;
            k = k + 1;
        }
        let r = Vector(c);
        assert(r@ =~= neg_seq(self@));
        r
    }

    /// Position-wise sum.
    pub fn add(self, rhs: Self) -> (r: Self)
        requires
            all_in_i64(add_seq(self@, rhs@)),
        ensures
            r@ == add_seq(self@, rhs@),
    {
        let mut c = self.0;
        let mut k: usize = 0;
        while k < N
            invariant
                k <= N,
                all_in_i64(add_seq(self@, rhs@)),
                forall|j: int| 0 <= j < k ==> c@[j] as int == self@[j] + rhs@[j],
                forall|j: int| k <= j < N ==> c@[j] == self.0@[j],
            decreases N - k,
        {
            assert(in_i64(add_seq(self@, rhs@)[k as int]));
            let x = c[k];
            c[k] = x + rhs.0[k];
            k = k + 1;
        }
        let r = Vector(c);
        assert(r@ =~= add_seq(self@, rhs@));
        r
    }

    /// Position-wise difference.
    pub fn sub(self, rhs: Self) -> (r: Self)
        requires
            all_in_i64(sub_seq(self@, rhs@)),
        ensures
            r@ == sub_seq(self@, rhs@),
    {
        let mut c = self.0;
        let mut k: usize = 0;
        while k < N
            invariant
                k <= N,
                all_in_i64(sub_seq(self@, rhs@)),
                forall|j: int| 0 <= j < k ==> c@[j] as int == self@[j] - rhs@[j],
                forall|j: int| k <= j < N ==> c@[j] == self.0@[j],
            decreases N - k,
        {
            assert(in_i64(sub_seq(self@, rhs@)[k as int]));
            let x = c[k];
            c[k] = x - rhs.0[k];
            k = k + 1;
        }
        let r = Vector(c);
        assert(r@ =~= sub_seq(self@, rhs@));
        r
    }

    /// Every coefficient multiplied by `s`.
    pub fn mul(self, s: i64) -> (r: Self)
        requires
            all_in_i64(scale_seq(self@, s as int)),
        ensures
            r@ == scale_seq(self@, s as int),
    {
        let mut c = self.0;
        let mut k: usize = 0;
        while k < N
            invariant
                k <= N,
                all_in_i64(scale_seq(self@, s as int)),
                forall|j: int| 0 <= j < k ==> c@[j] as int == self@[j] * s,
                forall|j: int| k <= j < N ==> c@[j] == self.0@[j],
            decreases N - k,
        {
            assert(in_i64(scale_seq(self@, s as int)[k as int]));
            let x = c[k];
            c[k] = x * s;
            k = k + 1;
        }
        let r = Vector(c);
        assert(r@ =~= scale_seq(self@, s as int));
        r
    }

    /// The full antisymmetrised tensor product `self (x) rhs - rhs (x) self`,
    /// as `N` rows of `N` entries; unlike the exterior product it keeps
    /// every ordered pair, the diagonal and both triangles.
    pub fn antisymmetric_tensor(&self, rhs: &Self) -> (r: Vec<Vec<i64>>)
        requires
            forall|i: int, j: int|
                0 <= i < N && 0 <= j < N ==> in_i64(
                    #[trigger] antisymmetric_entry(self@, rhs@, i, j),
                ),
        ensures
            r@.len() == N,
            forall|i: int| 0 <= i < N ==> (#[trigger] r@[i])@.len() == N,
            forall|i: int, j: int|
                0 <= i < N && 0 <= j < N ==> (#[trigger] r@[i]@[j]) as int == antisymmetric_entry(
                    self@,
                    rhs@,
                    i,
                    j,
                ),
    {
        let mut r: Vec<Vec<i64>> = Vec::new();
        let mut i: usize = 0;
        while i < N
            invariant
                i <= N,
                r@.len() == i,
                forall|i: int, j: int|
                    0 <= i < N && 0 <= j < N ==> in_i64(
                        #[trigger] antisymmetric_entry(self@, rhs@, i, j),
                    ),
                forall|p: int| 0 <= p < i ==> (#[trigger] r@[p])@.len() == N,
                forall|p: int, j: int|
                    0 <= p < i && 0 <= j < N ==> (#[trigger] r@[p]@[j]) as int
                        == antisymmetric_entry(self@, rhs@, p, j),
            decreases N - i,
        {
            let mut row: Vec<i64> = Vec::new();
            let mut j: usize = 0;
            while j < N
                invariant
                    i < N,
                    j <= N,
                    row@.len() == j,
                    forall|i: int, j: int|
                        0 <= i < N && 0 <= j < N ==> in_i64(
                            #[trigger] antisymmetric_entry(self@, rhs@, i, j),
                        ),
                    forall|q: int|
                        0 <= q < j ==> (#[trigger] row@[q]) as int == antisymmetric_entry(
                            self@,
                            rhs@,
                            i as int,
                            q,
                        ),
                decreases N - j,
            {
                proof {
                    lemma_i64_product(self.0@[i as int], rhs.0@[j as int]);
                    lemma_i64_product(rhs.0@[i as int], self.0@[j as int]);
                }
                let t = (self.0[i] as i128) * (rhs.0[j] as i128) - (rhs.0[i] as i128) * (
                self.0[j] as i128);
                assert(t == antisymmetric_entry(self@, rhs@, i as int, j as int));
                row.push(t as i64);
                j = j + 1;
            }
            r.push(row);
            i = i + 1;
        }
        r
    }

    /// The inner product `sum of self[i] * rhs[i]`.
    pub fn inner_product(&self, rhs: &Self) -> (r: i64)
        requires
            forall|m: int| 0 <= m <= N ==> in_i64(#[trigger] dot_prefix(self@, rhs@, m)),
        ensures
            r as int == dot(self@, rhs@),
    {
        let mut acc: i64 = 0;
        let mut k: usize = 0;
        while k < N
            invariant
                k <= N,
                forall|m: int| 0 <= m <= N ==> in_i64(#[trigger] dot_prefix(self@, rhs@, m)),
                acc as int == dot_prefix(self@, rhs@, k as int),
            decreases N - k,
        {
            proof {
                lemma_i64_product(self.0@[k as int], rhs.0@[k as int]);
            }
            let p = (self.0[k] as i128) * (rhs.0[k] as i128);
            assert(dot_prefix(self@, rhs@, k + 1) == acc + p);
            assert(in_i64(dot_prefix(self@, rhs@, k + 1)));
            acc = (acc as i128 + p) as i64;
            k = k + 1;
        }
        acc
    }
}

impl<const N: usize> PartialEq for Vector<N> {
    fn eq(&self, other: &Self) -> (r: bool) {
        let mut k: usize = 0;
        while k < N
            invariant
                k <= N,
                self.0@.len() == N,
                other.0@.len() == N,
                forall|j: int| 0 <= j < k ==> self.0@[j] == other.0@[j],
            decreases N - k,
        {
            if self.0[k] != other.0[k] {
                assert(self@[k as int] != other@[k as int]);
                return false;
            }
            k = k + 1;
        }
        assert(self@ =~= other@);
        true
    }
}

impl<const N: usize> vstd::std_specs::cmp::PartialEqSpecImpl for Vector<N> {
    open spec fn obeys_eq_spec() -> bool {
        true
    }

    open spec fn eq_spec(&self, other: &Vector<N>) -> bool {
        self@ == other@
    }
}

impl<const N: usize> ExteriorProduct<Vector<N>> for Vector<N> {
    type Output = BiVector<N>;

    open spec fn exterior_product_defined(self, rhs: Vector<N>) -> bool {
        all_in_i64(wedge(self@, rhs@))
    }

    /// `self ^ rhs`: for the canonical pair `(i, j)` at storage index `k`,
    /// component `k` is `self[i] * rhs[j] - self[j] * rhs[i]`.
    fn exterior_product(self, rhs: Vector<N>) -> (r: BiVector<N>)
        ensures
            r@ == wedge(self@, rhs@),
    {
        let ghost a = self@;
        let ghost b = rhs@;
        let ghost n = N as int;
        let mut res: Vec<i64> = Vec::new();
        let mut i: usize = 0;
        while i < N
            invariant
                i <= N,
                a == self@,
                b == rhs@,
                n == N,
                a.len() == n,
                all_in_i64(wedge(a, b)),
                int_view(res@) == wedge_terms(a, b, pair_rows(n, i as int)),
            decreases N - i,
        {
            let mut j: usize = i + 1;
            while j < N
                invariant
                    i < N,
                    i + 1 <= j <= N,
                    a == self@,
                    b == rhs@,
                    n == N,
                    a.len() == n,
                    all_in_i64(wedge(a, b)),
                    int_view(res@) == wedge_terms(
                        a,
                        b,
                        pair_rows(n, i as int) + pair_row(n, i as int).take(j - i - 1),
                    ),
                decreases N - j,
            {
                proof {
                    lemma_canonical_pair_at(n, i as int, j as int);
                    lemma_i64_product(self.0@[i as int], rhs.0@[j as int]);
                    lemma_i64_product(self.0@[j as int], rhs.0@[i as int]);
                }
                let t = (self.0[i] as i128) * (rhs.0[j] as i128) - (self.0[j] as i128) * (
                rhs.0[i] as i128);
                let ghost k = crate::combinatorics::pair_index(n, i as int, j as int);
                assert(wedge(a, b)[k] == t);
                assert(in_i64(wedge(a, b)[k]));
                let ghost before = res@;
                let ghost ps = pair_rows(n, i as int) + pair_row(n, i as int).take(j - i - 1);
                res.push(t as i64);
                assert(pair_rows(n, i as int) + pair_row(n, i as int).take(j - i) =~= ps.push(
                    (i as int, j as int),
                ));
                assert(int_view(res@) =~= int_view(before).push(t as int));
                assert(wedge_terms(a, b, ps.push((i as int, j as int))) =~= wedge_terms(
                    a,
                    b,
                    ps,
                ).push(t as int));
                j = j + 1;
            }
            assert(pair_row(n, i as int).take(N - i - 1) =~= pair_row(n, i as int));
            assert(pair_rows(n, i + 1) == pair_rows(n, i as int) + pair_row(n, i as int));
            i = i + 1;
        }
        proof {
            lemma_canonical_pairs_len(n);
        }
        BiVector::new(res)
    }
}

impl<const N: usize> GeometricProduct<Vector<N>> for Vector<N> {
    type Output = (i64, BiVector<N>);

    open spec fn geometric_product_defined(self, rhs: Vector<N>) -> bool {
        &&& forall|m: int| 0 <= m <= N ==> in_i64(#[trigger] dot_prefix(self@, rhs@, m))
        &&& all_in_i64(wedge(self@, rhs@))
    }

    /// `self rhs = self . rhs + self ^ rhs`: the scalar and bivector parts.
    fn geometric_product(self, rhs: Vector<N>) -> (r: (i64, BiVector<N>))
        ensures
            r.0 as int == dot(self@, rhs@),
            r.1@ == wedge(self@, rhs@),
    {
        let s = self.inner_product(&rhs);
        (s, self.exterior_product(rhs))
    }
}

} // verus!
