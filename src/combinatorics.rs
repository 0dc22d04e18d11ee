//! Index combinatorics: the enumerations of basis-axis pairs that fix how a
//! bivector's components are laid out.

use vstd::prelude::*;

verus! {

/// Number of bivector components in dimension `n`.
pub open spec fn bivector_len(n: int) -> int {
    n * (n - 1) / 2
}

/// A dimension has a non-negative number of bivector components.
pub proof fn lemma_bivector_len_nonneg(n: int)
    requires
        0 <= n,
    ensures
        0 <= bivector_len(n),
{
    assert(0 <= n * (n - 1)) by (nonlinear_arith)
        requires
            0 <= n,
    ;
}

/// Row `i` of the canonical pair enumeration: `(i, i+1), ..., (i, n-1)`.
pub open spec fn pair_row(n: int, i: int) -> Seq<(int, int)> {
    Seq::new((n - i - 1) as nat, |t: int| (i, i + 1 + t))
}

/// Rows `0..i` of the canonical pair enumeration, concatenated.
pub open spec fn pair_rows(n: int, i: int) -> Seq<(int, int)>
    decreases i,
{
    if i <= 0 {
        Seq::empty()
    } else {
        pair_rows(n, i - 1) + pair_row(n, i - 1)
    }
}

/// All pairs `(i, j)` with `i < j < n`: `i` ascending in the outer loop, `j`
/// ascending in the inner one.
pub open spec fn canonical_pairs(n: int) -> Seq<(int, int)> {
    pair_rows(n, n)
}

/// Storage index of the pair `(i, j)`, `i < j`, in `canonical_pairs(n)`.
pub open spec fn pair_index(n: int, i: int, j: int) -> int {
    pair_rows(n, i).len() + (j - i - 1)
}

/// All `n * n` ordered pairs, row-major.
pub open spec fn inclusive_pairs(n: int) -> Seq<(int, int)> {
    Seq::new((n * n) as nat, |k: int| (k / n, k % n))
}

/// Row `i` of the exclusive enumeration: `(i, j)` for every `j != i`.
pub open spec fn exclusive_row(n: int, i: int) -> Seq<(int, int)> {
    Seq::new((n - 1) as nat, |t: int| (i, if t < i { t } else { t + 1 }))
}

/// Rows `0..i` of the exclusive enumeration, concatenated.
pub open spec fn exclusive_rows(n: int, i: int) -> Seq<(int, int)>
    decreases i,
{
    if i <= 0 {
        Seq::empty()
    } else {
        exclusive_rows(n, i - 1) + exclusive_row(n, i - 1)
    }
}

/// All `n * (n - 1)` ordered pairs `(i, j)` with `i != j`, row-major.
pub open spec fn exclusive_pairs(n: int) -> Seq<(int, int)> {
    if n <= 0 {
        Seq::empty()
    } else {
        exclusive_rows(n, n)
    }
}

/// The pairs of a vector of `usize` pairs, as integers.
pub open spec fn pairs_view(v: Seq<(usize, usize)>) -> Seq<(int, int)> {
    v.map_values(|p: (usize, usize)| (p.0 as int, p.1 as int))
}

proof fn lemma_pair_rows_len(n: int, i: int)
    requires
        0 <= i <= n,
    ensures
        2 * pair_rows(n, i).len() == i * (2 * n - i - 1),
    decreases i,
{
    if i > 0 {
        lemma_pair_rows_len(n, i - 1);
        assert(pair_rows(n, i).len() == pair_rows(n, i - 1).len() + (n - i));
        assert(i * (2 * n - i - 1) == (i - 1) * (2 * n - (i - 1) - 1) + 2 * (n - i)) by (nonlinear_arith);
    } else {
        assert(i * (2 * n - i - 1) == 0) by (nonlinear_arith)
            requires
                i == 0,
        ;
    }
}

/// The canonical enumeration has `n * (n - 1) / 2` pairs.
pub proof fn lemma_canonical_pairs_len(n: int)
    requires
        0 <= n,
    ensures
        canonical_pairs(n).len() == bivector_len(n),
{
    lemma_pair_rows_len(n, n);
    assert(n * (2 * n - n - 1) == n * (n - 1)) by (nonlinear_arith);
}

proof fn lemma_pair_rows_prefix(n: int, i: int, m: int, k: int)
    requires
        0 <= i <= m <= n,
        0 <= k < pair_rows(n, i).len(),
    ensures
        k < pair_rows(n, m).len(),
        pair_rows(n, m)[k] == pair_rows(n, i)[k],
    decreases m - i,
{
    if i < m {
        lemma_pair_rows_prefix(n, i, m - 1, k);
    }
}

/// The pair `(i, j)`, `i < j < n`, stands at `pair_index(n, i, j)` in the
/// canonical enumeration.
pub proof fn lemma_canonical_pair_at(n: int, i: int, j: int)
    requires
        0 <= i < j < n,
    ensures
        0 <= pair_index(n, i, j) < canonical_pairs(n).len(),
        canonical_pairs(n)[pair_index(n, i, j)] == (i, j),
{
    let k = pair_index(n, i, j);
    assert(pair_rows(n, i + 1) == pair_rows(n, i) + pair_row(n, i));
    assert(pair_rows(n, i + 1)[k] == (i, j));
    lemma_pair_rows_prefix(n, i + 1, n, k);
}

/// Every entry of the canonical enumeration is a pair `(i, j)` with
/// `0 <= i < j < n`.
pub proof fn lemma_canonical_pair_bounds(n: int, k: int)
    requires
        0 <= n,
        0 <= k < canonical_pairs(n).len(),
    ensures
        0 <= canonical_pairs(n)[k].0 < canonical_pairs(n)[k].1 < n,
{
    lemma_pair_rows_bounds(n, n, k);
}

proof fn lemma_pair_rows_bounds(n: int, m: int, k: int)
    requires
        0 <= m <= n,
        0 <= k < pair_rows(n, m).len(),
    ensures
        0 <= pair_rows(n, m)[k].0 < pair_rows(n, m)[k].1 < n,
    decreases m,
{
    if m > 0 {
        let prev = pair_rows(n, m - 1);
        if k < prev.len() {
            lemma_pair_rows_bounds(n, m - 1, k);
        }
    }
}

/// The identity sequence `[0, 1, ..., n - 1]`.
pub fn progression(n: usize) -> (r: Vec<usize>)
    ensures
        r@.len() == n,
        forall|k: int| 0 <= k < n ==> r@[k] == k,
{
    let mut r: Vec<usize> = Vec::new();
    let mut i: usize = 0;
    while i < n
        invariant
            i <= n,
            r@.len() == i,
            forall|k: int| 0 <= k < i ==> r@[k] == k,
        decreases n - i,
    {
        r.push(i);
        i = i + 1;
    }
    r
}

/// The pairs `(i, j)` with `i < j < n`, in the canonical bivector order.
pub fn unique_combinations(n: usize) -> (r: Vec<(usize, usize)>)
    ensures
        pairs_view(r@) == canonical_pairs(n as int),
{
    let mut r: Vec<(usize, usize)> = Vec::new();
    let mut i: usize = 0;
    while i < n
        invariant
            i <= n,
            pairs_view(r@) == pair_rows(n as int, i as int),
        decreases n - i,
    {
        let mut j: usize = i + 1;
        while j < n
            invariant
                i < n,
                i + 1 <= j <= n,
                pairs_view(r@) == pair_rows(n as int, i as int) + pair_row(n as int, i as int).take(
                    j - i - 1,
                ),
            decreases n - j,
        {
            let ghost before = r@;
            r.push((i, j));
            assert(pairs_view(r@) == pairs_view(before).push((i as int, j as int)));
            assert(pair_row(n as int, i as int).take(j - i) == pair_row(n as int, i as int).take(
                j - i - 1,
            ).push((i as int, j as int)));
            j = j + 1;
        }
        assert(pair_row(n as int, i as int).take(n - i - 1) == pair_row(n as int, i as int));
        i = i + 1;
    }
    r
}

/// All `n * n` ordered pairs `(i, j)` with `i, j < n`, row-major.
pub fn inclusive_combinations(n: usize) -> (r: Vec<(usize, usize)>)
    ensures
        pairs_view(r@) == inclusive_pairs(n as int),
{
    let mut r: Vec<(usize, usize)> = Vec::new();
    let mut i: usize = 0;
    while i < n
        invariant
            i <= n,
            r@.len() == i * n,
            forall|k: int|
                0 <= k < r@.len() ==> #[trigger] pairs_view(r@)[k] == (k / n as int, k % n as int),
        decreases n - i,
    {
        let mut j: usize = 0;
        while j < n
            invariant
                i < n,
                j <= n,
                r@.len() == i * n + j,
                forall|k: int|
                    0 <= k < r@.len() ==> #[trigger] pairs_view(r@)[k] == (k / n as int, k % n as int),
            decreases n - j,
        {
            let ghost k = i * n + j;
            assert(k / n as int == i && k % n as int == j) by (nonlinear_arith)
                requires
                    k == i * n + j,
                    0 <= j < n,
                    0 <= i,
            ;
            assert(k < n * n) by (nonlinear_arith)
                requires
                    k == i * n + j,
                    0 <= j < n,
                    0 <= i < n,
            ;
            let ghost before = r@;
            r.push((i, j));
            assert(pairs_view(r@) == pairs_view(before).push((i as int, j as int)));
            j = j + 1;
        }
        assert((i + 1) * n == i * n + n) by (nonlinear_arith);
        i = i + 1;
    }
    assert(pairs_view(r@) =~= inclusive_pairs(n as int));
    r
}

/// All `n * (n - 1)` ordered pairs `(i, j)` with `i != j`, row-major.
pub fn exclusive_combinations(n: usize) -> (r: Vec<(usize, usize)>)
    ensures
        pairs_view(r@) == exclusive_pairs(n as int),
{
    let mut r: Vec<(usize, usize)> = Vec::new();
    let mut i: usize = 0;
    while i < n
        invariant
            i <= n,
            pairs_view(r@) == exclusive_rows(n as int, i as int),
        decreases n - i,
    {
        let mut j: usize = 0;
        while j < n
            invariant
                i < n,
                j <= n,
                pairs_view(r@) == exclusive_rows(n as int, i as int) + exclusive_row(
                    n as int,
                    i as int,
                ).take(if j <= i { j as int } else { j - 1 }),
            decreases n - j,
        {
            if j != i {
                let ghost before = r@;
                r.push((i, j));
                assert(pairs_view(r@) == pairs_view(before).push((i as int, j as int)));
                let ghost t: int = if j < i { j as int } else { j - 1 };
                assert(exclusive_row(n as int, i as int).take(t + 1) == exclusive_row(
                    n as int,
                    i as int,
                ).take(t).push((i as int, j as int)));
            }
            j = j + 1;
        }
        assert(exclusive_row(n as int, i as int).take(n - 1) == exclusive_row(n as int, i as int));
        i = i + 1;
    }
    r
}

} // verus!
