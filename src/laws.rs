//! Algebraic laws of the products and of the magnitude and conjugation.

use vstd::prelude::*;

use crate::bivector::BiVector;
use crate::combinatorics::{bivector_len, canonical_pairs, lemma_canonical_pair_bounds, lemma_canonical_pairs_len};
use crate::components::{
    add_seq,
    all_in_i64,
    all_zero,
    int_view,
    isqrt,
    lemma_isqrt_exists,
    lemma_sum_squares,
    neg_seq,
    norm_squared,
    zeros,
};
use crate::rotor::{conjugate_view, Rotor};
use crate::vector::{wedge, wedge_term, Vector};

verus! {

/// Antisymmetry: `a ^ b == -(b ^ a)` for any two vectors of one dimension.
pub proof fn lemma_exterior_antisymmetric<const N: usize>(a: Vector<N>, b: Vector<N>)
    ensures
        wedge(a@, b@) == neg_seq(wedge(b@, a@)),
{
    let n = a@.len() as int;
    assert forall|k: int| 0 <= k < canonical_pairs(n).len() implies #[trigger] wedge(a@, b@)[k]
        == -wedge(b@, a@)[k] by {
        let p = canonical_pairs(n)[k];
        let (x0, x1, y0, y1) = (a@[p.0], a@[p.1], b@[p.0], b@[p.1]);
        assert(x0 * y1 - x1 * y0 == -(y0 * x1 - y1 * x0)) by (nonlinear_arith);
    }
    assert(wedge(a@, b@) =~= neg_seq(wedge(b@, a@)));
}

/// Self-annihilation: `a ^ a` is the zero bivector.
pub proof fn lemma_exterior_self_zero<const N: usize>(a: Vector<N>)
    ensures
        wedge(a@, a@) == zeros(bivector_len(N as int)),
{
    let n = a@.len() as int;
    assert(a.0@.len() == N);
    lemma_canonical_pairs_len(n);
    assert forall|k: int| 0 <= k < canonical_pairs(n).len() implies #[trigger] wedge(a@, a@)[k]
        == 0 by {
        let p = canonical_pairs(n)[k];
        let (x0, x1) = (a@[p.0], a@[p.1]);
        assert(x0 * x1 - x1 * x0 == 0) by (nonlinear_arith);
    }
    assert(wedge(a@, a@) =~= zeros(bivector_len(N as int)));
}

/// Bilinearity in the left operand: `(a + c) ^ b == a ^ b + c ^ b`.
pub proof fn lemma_exterior_bilinear<const N: usize>(a: Vector<N>, c: Vector<N>, b: Vector<N>)
    ensures
        wedge(add_seq(a@, c@), b@) == add_seq(wedge(a@, b@), wedge(c@, b@)),
{
    let n = N as int;
    assert(a.0@.len() == N && b.0@.len() == N && c.0@.len() == N);
    let s = add_seq(a@, c@);
    assert forall|k: int| 0 <= k < canonical_pairs(n).len() implies #[trigger] wedge(s, b@)[k]
        == wedge(a@, b@)[k] + wedge(c@, b@)[k] by {
        lemma_canonical_pair_bounds(n, k);
        let p = canonical_pairs(n)[k];
        let (x0, x1, z0, z1, y0, y1) = (a@[p.0], a@[p.1], c@[p.0], c@[p.1], b@[p.0], b@[p.1]);
        assert(s[p.0] == x0 + z0 && s[p.1] == x1 + z1);
        assert((x0 + z0) * y1 - (x1 + z1) * y0 == (x0 * y1 - x1 * y0) + (z0 * y1 - z1 * y0))
            by (nonlinear_arith);
    }
    assert(wedge(s, b@) =~= add_seq(wedge(a@, b@), wedge(c@, b@)));
}

/// The magnitude of a bivector is never negative, and it is zero exactly when
/// every coefficient is zero.
pub proof fn lemma_magnitude_zero_iff<const N: usize>(v: BiVector<N>)
    ensures
        isqrt(norm_squared(v@)) >= 0,
        isqrt(norm_squared(v@)) == 0 <==> all_zero(v@),
{
    let ns = norm_squared(v@);
    lemma_sum_squares(v@, v@.len() as int);
    lemma_isqrt_exists(ns);
    let r = isqrt(ns);
    if r == 0 {
        assert((r + 1) * (r + 1) == 1) by (nonlinear_arith)
            requires
                r == 0,
        ;
        assert(ns < 1);
    }
    if all_zero(v@) {
        assert(ns == 0);
        assert(r * r >= r) by (nonlinear_arith)
            requires
                r >= 0,
        ;
    }
}

/// Conjugating a rotor twice gives it back, and a rotor that can be
/// conjugated once can be conjugated again.
pub proof fn lemma_conjugate_involution<const N: usize>(r: Rotor<N>)
    ensures
        conjugate_view(conjugate_view(r@)) == r@,
        all_in_i64(neg_seq(r@.1)) ==> all_in_i64(neg_seq(conjugate_view(r@).1)),
{
    assert(neg_seq(neg_seq(r@.1)) =~= r@.1);
    assert forall|k: int| 0 <= k < r@.1.len() implies crate::components::in_i64(
        #[trigger] r@.1[k],
    ) by {
        assert(r@.1[k] == r.bivector_part()@[k]);
        crate::bivector::lemma_view_in_i64(r.bivector_part(), k);
    }
}

/// Round trip: a bivector built by `new` from `src` hands back, through
/// `iter`, exactly the coefficients of `src`, in order.
pub proof fn lemma_new_iter_round_trip<const N: usize>(
    src: Seq<i64>,
    b: BiVector<N>,
    out: Seq<i64>,
)
    requires
        b@ == int_view(src),
        int_view(out) == b@,
    ensures
        out == src,
{
    assert(int_view(out).len() == out.len() && int_view(src).len() == src.len());
    assert forall|k: int| 0 <= k < src.len() implies out[k] == src[k] by {
        assert(int_view(out)[k] == int_view(src)[k]);
        assert(int_view(out)[k] == out[k] as int);
        assert(int_view(src)[k] == src[k] as int);
    }
    assert(out =~= src);
}

/// Coefficients bounded by `m` in absolute value, with `2 m^2` within `i64`,
/// keep every coefficient of `a ^ b` within `i64`.
pub proof fn lemma_exterior_in_range<const N: usize>(a: Vector<N>, b: Vector<N>, m: int)
    requires
        forall|i: int| 0 <= i < N ==> -m <= #[trigger] a@[i] <= m,
        forall|i: int| 0 <= i < N ==> -m <= #[trigger] b@[i] <= m,
        2 * m * m <= i64::MAX,
    ensures
        all_in_i64(wedge(a@, b@)),
{
    let n = N as int;
    assert(a.0@.len() == N && b.0@.len() == N);
    assert forall|k: int| 0 <= k < wedge(a@, b@).len() implies crate::components::in_i64(
        #[trigger] wedge(a@, b@)[k],
    ) by {
        lemma_canonical_pair_bounds(n, k);
        let p = canonical_pairs(n)[k];
        let (x0, x1, y0, y1) = (a@[p.0], a@[p.1], b@[p.0], b@[p.1]);
        assert(-(2 * m * m) <= x0 * y1 - x1 * y0 <= 2 * m * m) by (nonlinear_arith)
            requires
                -m <= x0 <= m,
                -m <= x1 <= m,
                -m <= y0 <= m,
                -m <= y1 <= m,
        ;
    }
}

} // verus!
