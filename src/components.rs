//! Coefficient sequences: the mathematical model of every graded container,
//! and the component-wise arithmetic on them.

use vstd::prelude::*;

verus! {

/// The coefficients of a sequence of `i64`, as integers.
pub open spec fn int_view(s: Seq<i64>) -> Seq<int> {
    s.map_values(|x: i64| x as int)
}

/// `x` is representable as an `i64`.
pub open spec fn in_i64(x: int) -> bool {
    i64::MIN <= x <= i64::MAX
}

/// Every coefficient of `s` is representable as an `i64`.
pub open spec fn all_in_i64(s: Seq<int>) -> bool {
    forall|k: int| 0 <= k < s.len() ==> in_i64(#[trigger] s[k])
}

/// Every coefficient is zero.
pub open spec fn all_zero(s: Seq<int>) -> bool {
    forall|k: int| 0 <= k < s.len() ==> #[trigger] s[k] == 0
}

/// `n` zero coefficients.
pub open spec fn zeros(n: int) -> Seq<int> {
    Seq::new(n as nat, |k: int| 0int)
}

/// Position-wise sign flip.
pub open spec fn neg_seq(s: Seq<int>) -> Seq<int> {
    s.map_values(|x: int| -x)
}

/// Position-wise sum.
pub open spec fn add_seq(a: Seq<int>, b: Seq<int>) -> Seq<int> {
    Seq::new(a.len(), |k: int| a[k] + b[k])
}

/// Position-wise difference.
pub open spec fn sub_seq(a: Seq<int>, b: Seq<int>) -> Seq<int> {
    Seq::new(a.len(), |k: int| a[k] - b[k])
}

/// `c` added to every coefficient.
pub open spec fn add_scalar_seq(a: Seq<int>, c: int) -> Seq<int> {
    a.map_values(|x: int| x + c)
}

/// `c` subtracted from every coefficient.
pub open spec fn sub_scalar_seq(a: Seq<int>, c: int) -> Seq<int> {
    a.map_values(|x: int| x - c)
}

/// Every coefficient multiplied by `c`.
pub open spec fn scale_seq(a: Seq<int>, c: int) -> Seq<int> {
    a.map_values(|x: int| x * c)
}

/// Integer division rounding toward zero, as `i64`'s `/` does.
pub open spec fn div_toward_zero(x: int, d: int) -> int {
    let q = (if x < 0 { -x } else { x }) / (if d < 0 { -d } else { d });
    if (x < 0) == (d < 0) {
        q
    } else {
        -q
    }
}

/// Every coefficient divided by `c`, rounding toward zero.
pub open spec fn div_seq(a: Seq<int>, c: int) -> Seq<int> {
    a.map_values(|x: int| div_toward_zero(x, c))
}

/// The division `x / d` of two `i64` neither divides by zero nor overflows.
pub open spec fn div_ok(x: int, d: int) -> bool {
    d != 0 && !(x == i64::MIN && d == -1)
}

/// Sum of the squares of the first `m` coefficients.
pub open spec fn sum_squares(s: Seq<int>, m: int) -> int
    decreases m,
{
    if m <= 0 {
        0
    } else {
        sum_squares(s, m - 1) + s[m - 1] * s[m - 1]
    }
}

/// Squared Euclidean norm of a coefficient sequence.
pub open spec fn norm_squared(s: Seq<int>) -> int {
    sum_squares(s, s.len() as int)
}

/// Sum of `a[k] * b[k]` over the first `m` positions.
pub open spec fn dot_prefix(a: Seq<int>, b: Seq<int>, m: int) -> int
    decreases m,
{
    if m <= 0 {
        0
    } else {
        dot_prefix(a, b, m - 1) + a[m - 1] * b[m - 1]
    }
}

/// Inner product of two coefficient sequences of one length.
pub open spec fn dot(a: Seq<int>, b: Seq<int>) -> int {
    dot_prefix(a, b, a.len() as int)
}

/// `r` is the integer square root of `x`, rounded down.
pub open spec fn is_floor_sqrt(r: int, x: int) -> bool {
    0 <= r && r * r <= x < (r + 1) * (r + 1)
}

/// The integer square root of `x`, rounded down.
pub open spec fn isqrt(x: int) -> int {
    choose|r: int| is_floor_sqrt(r, x)
}

/// At most one integer is the rounded-down square root of `x`.
pub proof fn lemma_floor_sqrt_unique(r1: int, r2: int, x: int)
    requires
        is_floor_sqrt(r1, x),
        is_floor_sqrt(r2, x),
    ensures
        r1 == r2,
{
    if r1 < r2 {
        assert((r1 + 1) * (r1 + 1) <= r2 * r2) by (nonlinear_arith)
            requires
                0 <= r1 + 1 <= r2,
        ;
    } else if r2 < r1 {
        assert((r2 + 1) * (r2 + 1) <= r1 * r1) by (nonlinear_arith)
            requires
                0 <= r2 + 1 <= r1,
        ;
    }
}

/// Every non-negative integer has a rounded-down square root.
pub proof fn lemma_isqrt_exists(x: int)
    requires
        x >= 0,
    ensures
        is_floor_sqrt(isqrt(x), x),
    decreases x,
{
    if x == 0 {
        assert(is_floor_sqrt(0, 0));
    } else {
        lemma_isqrt_exists(x - 1);
        let r = isqrt(x - 1);
        if (r + 1) * (r + 1) <= x {
            assert((r + 1) * (r + 1) < (r + 2) * (r + 2)) by (nonlinear_arith)
                requires
                    r >= 0,
            ;
            assert(is_floor_sqrt(r + 1, x));
        } else {
            assert(is_floor_sqrt(r, x));
        }
    }
}

/// A rounded-down square root is the one `isqrt` names.
pub proof fn lemma_isqrt(r: int, x: int)
    requires
        is_floor_sqrt(r, x),
    ensures
        isqrt(x) == r,
{
    lemma_floor_sqrt_unique(isqrt(x), r, x);
}

/// The square root of an `i64` is below `2^32`.
pub proof fn lemma_floor_sqrt_bound(r: int, x: int)
    requires
        is_floor_sqrt(r, x),
        x <= i64::MAX,
    ensures
        r < 0x1_0000_0000,
{
    if r >= 0x1_0000_0000 {
        assert(r * r >= 0x1_0000_0000 * 0x1_0000_0000) by (nonlinear_arith)
            requires
                r >= 0x1_0000_0000,
        ;
    }
}

/// A sum of squares is never negative, and it is zero exactly when every
/// coefficient counted is zero.
pub proof fn lemma_sum_squares(s: Seq<int>, m: int)
    requires
        0 <= m <= s.len(),
    ensures
        sum_squares(s, m) >= 0,
        sum_squares(s, m) == 0 <==> (forall|k: int| 0 <= k < m ==> #[trigger] s[k] == 0),
    decreases m,
{
    if m > 0 {
        lemma_sum_squares(s, m - 1);
        let x = s[m - 1];
        assert(x * x >= 0) by (nonlinear_arith);
        assert(x != 0 ==> x * x > 0) by (nonlinear_arith);
        if sum_squares(s, m) == 0 {
            assert forall|k: int| 0 <= k < m implies #[trigger] s[k] == 0 by {
                if k < m - 1 {
                } else {
                }
            }
        }
    }
}

/// Running sums of squares never decrease.
pub proof fn lemma_sum_squares_monotone(s: Seq<int>, m: int, p: int)
    requires
        0 <= m <= p <= s.len(),
    ensures
        sum_squares(s, m) <= sum_squares(s, p),
    decreases p - m,
{
    if m < p {
        lemma_sum_squares_monotone(s, m, p - 1);
        let x = s[p - 1];
        assert(x * x >= 0) by (nonlinear_arith);
    }
}

/// The product of two `i64` lies well inside `i128`.
pub proof fn lemma_i64_product(x: i64, y: i64)
    ensures
        -0x4000_0000_0000_0000_0000_0000_0000_0000 + 0x8000_0000_0000_0000 <= x * y
            <= 0x4000_0000_0000_0000_0000_0000_0000_0000,
{
    let a = x as int;
    let b = y as int;
    assert(-0x4000_0000_0000_0000_0000_0000_0000_0000 + 0x8000_0000_0000_0000 <= a * b
        <= 0x4000_0000_0000_0000_0000_0000_0000_0000) by (nonlinear_arith)
        requires
            -0x8000_0000_0000_0000 <= a <= 0x7fff_ffff_ffff_ffff,
            -0x8000_0000_0000_0000 <= b <= 0x7fff_ffff_ffff_ffff,
    ;
}

/// Position-wise sum of two slices of one length.
pub(crate) fn add_components(a: &[i64], b: &[i64]) -> (r: Vec<i64>)
    requires
        a@.len() == b@.len(),
        all_in_i64(add_seq(int_view(a@), int_view(b@))),
    ensures
        int_view(r@) == add_seq(int_view(a@), int_view(b@)),
{
    let ghost want = add_seq(int_view(a@), int_view(b@));
    let mut r: Vec<i64> = Vec::new();
    let mut k: usize = 0;
    while k < a.len()
        invariant
            k <= a@.len() == b@.len(),
            want == add_seq(int_view(a@), int_view(b@)),
            all_in_i64(want),
            int_view(r@) == want.take(k as int),
        decreases a@.len() - k,
    {
        assert(in_i64(want[k as int]));
        let ghost before = r@;
        r.push(a[k] + b[k]);
        assert(int_view(r@) =~= int_view(before).push(r@[k as int] as int));
        assert(want.take(k + 1) =~= want.take(k as int).push(want[k as int]));
        k = k + 1;
    }
    assert(want.take(a@.len() as int) =~= want);
    r
}

/// Position-wise difference of two slices of one length.
pub(crate) fn sub_components(a: &[i64], b: &[i64]) -> (r: Vec<i64>)
    requires
        a@.len() == b@.len(),
        all_in_i64(sub_seq(int_view(a@), int_view(b@))),
    ensures
        int_view(r@) == sub_seq(int_view(a@), int_view(b@)),
{
    let ghost want = sub_seq(int_view(a@), int_view(b@));
    let mut r: Vec<i64> = Vec::new();
    let mut k: usize = 0;
    while k < a.len()
        invariant
            k <= a@.len() == b@.len(),
            want == sub_seq(int_view(a@), int_view(b@)),
            all_in_i64(want),
            int_view(r@) == want.take(k as int),
        decreases a@.len() - k,
    {
        assert(in_i64(want[k as int]));
        let ghost before = r@;
        r.push(a[k] - b[k]);
        assert(int_view(r@) =~= int_view(before).push(r@[k as int] as int));
        assert(want.take(k + 1) =~= want.take(k as int).push(want[k as int]));
        k = k + 1;
    }
    assert(want.take(a@.len() as int) =~= want);
    r
}

/// Every component with its sign flipped.
pub(crate) fn neg_components(a: &[i64]) -> (r: Vec<i64>)
    requires
        all_in_i64(neg_seq(int_view(a@))),
    ensures
        int_view(r@) == neg_seq(int_view(a@)),
{
    let ghost want = neg_seq(int_view(a@));
    let mut r: Vec<i64> = Vec::new();
    let mut k: usize = 0;
    while k < a.len()
        invariant
            k <= a@.len(),
            want == neg_seq(int_view(a@)),
            all_in_i64(want),
            int_view(r@) == want.take(k as int),
        decreases a@.len() - k,
    {
        assert(in_i64(want[k as int]));
        let ghost before = r@;
        r.push(-a[k]);
        assert(int_view(r@) =~= int_view(before).push(r@[k as int] as int));
        assert(want.take(k + 1) =~= want.take(k as int).push(want[k as int]));
        k = k + 1;
    }
    assert(want.take(a@.len() as int) =~= want);
    r
}

/// `c` added to every component.
pub(crate) fn add_scalar_components(a: &[i64], c: i64) -> (r: Vec<i64>)
    requires
        all_in_i64(add_scalar_seq(int_view(a@), c as int)),
    ensures
        int_view(r@) == add_scalar_seq(int_view(a@), c as int),
{
    let ghost want = add_scalar_seq(int_view(a@), c as int);
    let mut r: Vec<i64> = Vec::new();
    let mut k: usize = 0;
    while k < a.len()
        invariant
            k <= a@.len(),
            want == add_scalar_seq(int_view(a@), c as int),
            all_in_i64(want),
            int_view(r@) == want.take(k as int),
        decreases a@.len() - k,
    {
        assert(in_i64(want[k as int]));
        let ghost before = r@;
        r.push(a[k] + c);
        assert(int_view(r@) =~= int_view(before).push(r@[k as int] as int));
        assert(want.take(k + 1) =~= want.take(k as int).push(want[k as int]));
        k = k + 1;
    }
    assert(want.take(a@.len() as int) =~= want);
    r
}

/// `c` subtracted from every component.
pub(crate) fn sub_scalar_components(a: &[i64], c: i64) -> (r: Vec<i64>)
    requires
        all_in_i64(sub_scalar_seq(int_view(a@), c as int)),
    ensures
        int_view(r@) == sub_scalar_seq(int_view(a@), c as int),
{
    let ghost want = sub_scalar_seq(int_view(a@), c as int);
    let mut r: Vec<i64> = Vec::new();
    let mut k: usize = 0;
    while k < a.len()
        invariant
            k <= a@.len(),
            want == sub_scalar_seq(int_view(a@), c as int),
            all_in_i64(want),
            int_view(r@) == want.take(k as int),
        decreases a@.len() - k,
    {
        assert(in_i64(want[k as int]));
        let ghost before = r@;
        r.push(a[k] - c);
        assert(int_view(r@) =~= int_view(before).push(r@[k as int] as int));
        assert(want.take(k + 1) =~= want.take(k as int).push(want[k as int]));
        k = k + 1;
    }
    assert(want.take(a@.len() as int) =~= want);
    r
}

/// Every component multiplied by `c`.
pub(crate) fn scale_components(a: &[i64], c: i64) -> (r: Vec<i64>)
    requires
        all_in_i64(scale_seq(int_view(a@), c as int)),
    ensures
        int_view(r@) == scale_seq(int_view(a@), c as int),
{
    let ghost want = scale_seq(int_view(a@), c as int);
    let mut r: Vec<i64> = Vec::new();
    let mut k: usize = 0;
    while k < a.len()
        invariant
            k <= a@.len(),
            want == scale_seq(int_view(a@), c as int),
            all_in_i64(want),
            int_view(r@) == want.take(k as int),
        decreases a@.len() - k,
    {
        assert(in_i64(want[k as int]));
        let ghost before = r@;
        r.push(a[k] * c);
        assert(int_view(r@) =~= int_view(before).push(r@[k as int] as int));
        assert(want.take(k + 1) =~= want.take(k as int).push(want[k as int]));
        k = k + 1;
    }
    assert(want.take(a@.len() as int) =~= want);
    r
}

/// `x / d` rounding toward zero, computed on magnitudes.
pub(crate) fn div_i64(x: i64, d: i64) -> (q: i64)
    requires
        div_ok(x as int, d as int),
    ensures
        q as int == div_toward_zero(x as int, d as int),
{
    let ax: i128 = if x < 0 {
        -(x as i128)
    } else {
        x as i128
    };
    let ad: i128 = if d < 0 {
        -(d as i128)
    } else {
        d as i128
    };
    let m = ax / ad;
    assert(m <= ax) by (nonlinear_arith)
        requires
            0 <= ax,
            1 <= ad,
            m == ax / ad,
    ;
    assert(ad >= 2 ==> m <= ax / 2) by (nonlinear_arith)
        requires
            0 <= ax,
            1 <= ad,
            m == ax / ad,
    ;
    if (x < 0) == (d < 0) {
        m as i64
    } else {
        (-m) as i64
    }
}

/// Every component divided by `c`, rounding toward zero.
pub(crate) fn div_components(a: &[i64], c: i64) -> (r: Vec<i64>)
    requires
        forall|k: int| 0 <= k < a@.len() ==> div_ok(#[trigger] int_view(a@)[k], c as int),
    ensures
        int_view(r@) == div_seq(int_view(a@), c as int),
{
    let ghost want = div_seq(int_view(a@), c as int);
    let mut r: Vec<i64> = Vec::new();
    let mut k: usize = 0;
    while k < a.len()
        invariant
            k <= a@.len(),
            want == div_seq(int_view(a@), c as int),
            forall|k: int| 0 <= k < a@.len() ==> div_ok(#[trigger] int_view(a@)[k], c as int),
            int_view(r@) == want.take(k as int),
        decreases a@.len() - k,
    {
        assert(div_ok(int_view(a@)[k as int], c as int));
        let q = div_i64(a[k], c);
        let ghost before = r@;
        r.push(q);
        assert(int_view(r@) =~= int_view(before).push(r@[k as int] as int));
        assert(want.take(k + 1) =~= want.take(k as int).push(want[k as int]));
        k = k + 1;
    }
    assert(want.take(a@.len() as int) =~= want);
    r
}

/// The squared Euclidean norm of a slice.
pub(crate) fn norm_squared_components(a: &[i64]) -> (r: i64)
    requires
        in_i64(norm_squared(int_view(a@))),
    ensures
        r as int == norm_squared(int_view(a@)),
{
    let ghost s = int_view(a@);
    let mut acc: i64 = 0;
    let mut k: usize = 0;
    while k < a.len()
        invariant
            k <= a@.len(),
            s == int_view(a@),
            in_i64(norm_squared(s)),
            acc as int == sum_squares(s, k as int),
        decreases a@.len() - k,
    {
        proof {
            lemma_sum_squares_monotone(s, k + 1, s.len() as int);
            lemma_sum_squares(s, k + 1);
            lemma_i64_product(a@[k as int], a@[k as int]);
        }
        let x = a[k] as i128;
        let sq = x * x;
        assert(s[k as int] == x as int);
        assert(sum_squares(s, k + 1) == acc + sq);
        assert(sum_squares(s, k + 1) <= norm_squared(s));
        acc = (acc as i128 + sq) as i64;
        k = k + 1;
    }
    acc
}

} // verus!
