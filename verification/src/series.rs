//! Sums over all particles, and what holds of them whatever the terms are:
//! they add and scale term by term, a weighted sum obeys the inequality of
//! Cauchy and Schwarz, and what each pair exchanges adds up to nothing.
use vstd::prelude::*;
use crate::sums::masked_sum;

verus! {

/// The sum of `f(j)` over the `j` below `n`.
pub open spec fn series(n: nat, f: spec_fn(int) -> int) -> int
    decreases n,
{
    if n == 0 {
        0
    } else {
        series((n - 1) as nat, f) + f(n - 1)
    }
}

/// The sum of `g(i, j)` over the `j` below `n`.
pub open spec fn row(n: nat, g: spec_fn(int, int) -> int, i: int) -> int {
    series(n, |j: int| g(i, j))
}

/// The sum over `i` below `m` of the sums of `g(i, j)` over `j` below `n`.
pub open spec fn double_series(m: nat, n: nat, g: spec_fn(int, int) -> int) -> int
    decreases m,
{
    if m == 0 {
        0
    } else {
        double_series((m - 1) as nat, n, g) + row(n, g, m - 1)
    }
}

/// A row of a double sum is the sum of its terms.
pub proof fn lemma_row_is(n: nat, g: spec_fn(int, int) -> int, i: int, f: spec_fn(int) -> int)
    requires
        forall|j: int| 0 <= j < n ==> #[trigger] f(j) == g(i, j),
    ensures
        row(n, g, i) == series(n, f),
{
    lemma_series_same(n, |j: int| g(i, j), f);
}

/// Two sums agree where their terms agree.
pub proof fn lemma_series_same(n: nat, f: spec_fn(int) -> int, g: spec_fn(int) -> int)
    requires
        forall|j: int| 0 <= j < n ==> #[trigger] f(j) == g(j),
    ensures
        series(n, f) == series(n, g),
    decreases n,
{
    if n > 0 {
        lemma_series_same((n - 1) as nat, f, g);
    }
}

/// A sum over the particles that a mask selects is the sum over all
/// particles of the terms with zero for the others.
pub proof fn lemma_series_of_masked(
    n: nat,
    mask: spec_fn(int) -> bool,
    term: spec_fn(int) -> int,
    f: spec_fn(int) -> int,
)
    requires
        forall|j: int| 0 <= j < n ==> #[trigger] f(j) == if mask(j) { term(j) } else { 0 },
    ensures
        masked_sum(n, mask, term) == series(n, f),
    decreases n,
{
    if n > 0 {
        lemma_series_of_masked((n - 1) as nat, mask, term, f);
    }
}

/// The sum of sums of terms is the sum of the sums.
pub proof fn lemma_series_add(
    n: nat,
    f: spec_fn(int) -> int,
    g: spec_fn(int) -> int,
    h: spec_fn(int) -> int,
)
    requires
        forall|j: int| 0 <= j < n ==> #[trigger] h(j) == f(j) + g(j),
    ensures
        series(n, h) == series(n, f) + series(n, g),
    decreases n,
{
    if n > 0 {
        lemma_series_add((n - 1) as nat, f, g, h);
    }
}

/// The sum of terms times a factor is the factor times the sum.
pub proof fn lemma_series_scale(n: nat, f: spec_fn(int) -> int, c: int, h: spec_fn(int) -> int)
    requires
        forall|j: int| 0 <= j < n ==> #[trigger] h(j) == c * f(j),
    ensures
        series(n, h) == c * series(n, f),
    decreases n,
{
    if n > 0 {
        lemma_series_scale((n - 1) as nat, f, c, h);
        let rest = series((n - 1) as nat, f);
        let last = f(n - 1);
        assert(c * (rest + last) == c * rest + c * last) by (nonlinear_arith);
    }
}

/// A sum is no larger than another whose terms are no smaller.
pub proof fn lemma_series_ordered(n: nat, f: spec_fn(int) -> int, g: spec_fn(int) -> int)
    requires
        forall|j: int| 0 <= j < n ==> #[trigger] f(j) <= g(j),
    ensures
        series(n, f) <= series(n, g),
    decreases n,
{
    if n > 0 {
        lemma_series_ordered((n - 1) as nat, f, g);
    }
}

/// The inequality of Cauchy and Schwarz for weights that are not negative:
/// the square of a weighted sum is at most the sum of the weights times the
/// weighted sum of the squares. One weight, `first`, stands in front of the
/// others.
pub proof fn lemma_series_cauchy(
    n: nat,
    weight: spec_fn(int) -> int,
    value: spec_fn(int) -> int,
    weighted: spec_fn(int) -> int,
    squares: spec_fn(int) -> int,
    first: int,
    x: int,
)
    requires
        first >= 0,
        forall|j: int|
            0 <= j < n ==> (#[trigger] weight(j)) >= 0 && weighted(j) == weight(j) * value(j)
                && squares(j) == weight(j) * (value(j) * value(j)),
    ensures
        first + series(n, weight) >= 0,
        first * (x * x) + series(n, squares) >= 0,
        (first * x + series(n, weighted)) * (first * x + series(n, weighted)) <= (first + series(
            n,
            weight,
        )) * (first * (x * x) + series(n, squares)),
    decreases n,
{
    if n == 0 {
        assert((first * x) * (first * x) == first * (first * (x * x)) && first * (x * x) >= 0)
            by (nonlinear_arith)
            requires
                first >= 0,
        ;
    } else {
        lemma_series_cauchy((n - 1) as nat, weight, value, weighted, squares, first, x);
        let total = first + series((n - 1) as nat, weight);
        let sum = first * x + series((n - 1) as nat, weighted);
        let square = first * (x * x) + series((n - 1) as nat, squares);
        let w = weight(n - 1);
        let t = value(n - 1);
        lemma_cauchy_step(total, sum, square, w, t);
    }
}

/// One step of the inequality: it survives one more weight and value.
pub proof fn lemma_cauchy_step(total: int, sum: int, square: int, w: int, t: int)
    requires
        total >= 0,
        square >= 0,
        w >= 0,
        sum * sum <= total * square,
    ensures
        square + w * (t * t) >= 0,
        (sum + w * t) * (sum + w * t) <= (total + w) * (square + w * (t * t)),
{
    let q = t * t;
    let p = sum * t;
    assert(q >= 0) by (nonlinear_arith)
        requires
            q == t * t,
    ;
    assert(w * q >= 0) by (nonlinear_arith)
        requires
            w >= 0,
            q >= 0,
    ;
    // Twice the mixed term is at most the two squares.
    if total == 0 {
        assert(sum == 0) by (nonlinear_arith)
            requires
                sum * sum <= total * square,
                total == 0,
        ;
        assert(p == 0) by (nonlinear_arith)
            requires
                p == sum * t,
                sum == 0,
        ;
    } else {
        let u = total * t - sum;
        assert(u * u >= 0) by (nonlinear_arith);
        assert(u * u == total * (total * q) - 2 * (total * p) + sum * sum) by (nonlinear_arith)
            requires
                u == total * t - sum,
                q == t * t,
                p == sum * t,
        ;
        assert(total * (total * q + square) == total * (total * q) + total * square)
            by (nonlinear_arith);
        assert(total * (2 * p) == 2 * (total * p)) by (nonlinear_arith);
        assert(2 * p <= total * q + square) by (nonlinear_arith)
            requires
                total > 0,
                total * (2 * p) <= total * (total * q + square),
        ;
    }
    let bound = total * q + square;
    assert(w * (2 * p) <= w * bound) by (nonlinear_arith)
        requires
            w >= 0,
            2 * p <= bound,
    ;
    assert((sum + w * t) * (sum + w * t) == sum * sum + w * (2 * p) + w * (w * q))
        by (nonlinear_arith)
        requires
            q == t * t,
            p == sum * t,
    ;
    assert((total + w) * (square + w * q) == total * square + w * bound + w * (w * q))
        by (nonlinear_arith)
        requires
            bound == total * q + square,
    ;
}

/// Widening every inner sum of a double sum by one column adds the sum of
/// that column.
pub proof fn lemma_double_series_widen(
    m: nat,
    n: nat,
    g: spec_fn(int, int) -> int,
    column: spec_fn(int) -> int,
)
    requires
        forall|i: int| 0 <= i < m ==> #[trigger] column(i) == g(i, n as int),
    ensures
        double_series(m, n + 1, g) == double_series(m, n, g) + series(m, column),
    decreases m,
{
    if m > 0 {
        lemma_double_series_widen((m - 1) as nat, n, g, column);
    }
}

/// What pairs exchange adds up to nothing: where `g(i, j)` is the opposite
/// of `g(j, i)` for every pair, the sum of `g` over all pairs is zero.
pub proof fn lemma_exchange_cancels(n: nat, g: spec_fn(int, int) -> int)
    requires
        forall|i: int, j: int| 0 <= i < n && 0 <= j < n ==> #[trigger] g(i, j) == -g(j, i),
    ensures
        double_series(n, n, g) == 0,
    decreases n,
{
    if n > 0 {
        let m = (n - 1) as nat;
        lemma_exchange_cancels(m, g);
        let column = |i: int| g(i, m as int);
        let line = |j: int| g(m as int, j);
        let nothing = |k: int| 0int;
        lemma_double_series_widen(m, m, g, column);
        assert(g(m as int, m as int) == 0);
        lemma_series_add(m, column, line, nothing);
        lemma_series_scale(m, nothing, 0, nothing);
    }
}

/// A double sum is the sum of its rows.
pub proof fn lemma_double_series_of_rows(
    m: nat,
    n: nat,
    g: spec_fn(int, int) -> int,
    rows: spec_fn(int) -> int,
)
    requires
        forall|i: int| 0 <= i < m ==> #[trigger] rows(i) == row(n, g, i),
    ensures
        double_series(m, n, g) == series(m, rows),
    decreases m,
{
    if m > 0 {
        lemma_double_series_of_rows((m - 1) as nat, n, g, rows);
    }
}

} // verus!
