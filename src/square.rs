//! The mathematical model of a square integer matrix: a sequence of rows,
//! each a sequence of mathematical integers. Every matrix type of this crate
//! views itself as such a sequence, whatever its storage order, and states
//! its operations over the functions below.
use vstd::prelude::*;

verus! {

/// `m` has `n` rows of `n` entries each.
pub open spec fn is_square(m: Seq<Seq<int>>, n: nat) -> bool {
    &&& m.len() == n
    &&& forall|i: int| 0 <= i < n ==> (#[trigger] m[i]).len() == n
}

/// Every entry of `m` lies in the range of `i32`.
pub open spec fn fits_i32(m: Seq<Seq<int>>) -> bool {
    forall|i: int, j: int|
        0 <= i < m.len() && 0 <= j < m[i].len() ==> i32::MIN <= #[trigger] m[i][j] <= i32::MAX
}

/// The `n`-by-`n` matrix whose entry at row `i`, column `j` is `f(i, j)`.
pub open spec fn build(n: nat, f: spec_fn(int, int) -> int) -> Seq<Seq<int>> {
    Seq::new(n, |i: int| Seq::new(n, |j: int| f(i, j)))
}

/// Every entry is `s`.
pub open spec fn filled(n: nat, s: int) -> Seq<Seq<int>> {
    build(n, |i: int, j: int| s)
}

/// Entries count up along each row, then down the rows: `i * n + j`.
pub open spec fn counting_by_rows(n: nat) -> Seq<Seq<int>> {
    build(n, |i: int, j: int| i * n + j)
}

/// Entries count down each column, then across the columns: `j * n + i`.
pub open spec fn counting_by_columns(n: nat) -> Seq<Seq<int>> {
    build(n, |i: int, j: int| j * n + i)
}

/// The matrix read from `n * n` values given row after row.
pub open spec fn from_flat(n: nat, v: Seq<i32>) -> Seq<Seq<int>> {
    build(n, |i: int, j: int| v[i * n + j] as int)
}

/// Column `j` of `m`, top to bottom.
pub open spec fn column(m: Seq<Seq<int>>, j: int) -> Seq<int> {
    Seq::new(m.len(), |i: int| m[i][j])
}

/// The values of `s` as mathematical integers.
pub open spec fn ints(s: Seq<i32>) -> Seq<int> {
    s.map_values(|x: i32| x as int)
}

/// Entry-wise sum.
pub open spec fn mat_sum(a: Seq<Seq<int>>, b: Seq<Seq<int>>) -> Seq<Seq<int>> {
    build(a.len(), |i: int, j: int| a[i][j] + b[i][j])
}

/// Entry-wise difference.
pub open spec fn mat_diff(a: Seq<Seq<int>>, b: Seq<Seq<int>>) -> Seq<Seq<int>> {
    build(a.len(), |i: int, j: int| a[i][j] - b[i][j])
}

/// Every entry multiplied by `s`.
pub open spec fn mat_scaled(a: Seq<Seq<int>>, s: int) -> Seq<Seq<int>> {
    build(a.len(), |i: int, j: int| a[i][j] * s)
}

/// The first `k` terms of row `i` of `a` times column `j` of `b`:
/// `a[i][0] * b[0][j] + ... + a[i][k - 1] * b[k - 1][j]`.
pub open spec fn dot(a: Seq<Seq<int>>, b: Seq<Seq<int>>, i: int, j: int, k: nat) -> int
    decreases k,
{
    if k == 0 {
        0
    } else {
        dot(a, b, i, j, (k - 1) as nat) + a[i][k - 1] * b[k - 1][j]
    }
}

/// The matrix product: entry `(i, j)` is the sum over `k` of `a[i][k] * b[k][j]`.
pub open spec fn mat_product(a: Seq<Seq<int>>, b: Seq<Seq<int>>) -> Seq<Seq<int>> {
    build(a.len(), |i: int, j: int| dot(a, b, i, j, a.len()))
}

/// A partial row-by-column sum of entries in the range of `i32` is at most
/// `k * 2^62` in absolute value.
pub proof fn lemma_dot_bound(a: Seq<Seq<int>>, b: Seq<Seq<int>>, n: nat, i: int, j: int, k: nat)
    requires
        is_square(a, n),
        is_square(b, n),
        fits_i32(a),
        fits_i32(b),
        0 <= i < n,
        0 <= j < n,
        k <= n,
    ensures
        -(k * 0x4000_0000_0000_0000) <= dot(a, b, i, j, k) <= k * 0x4000_0000_0000_0000,
    decreases k,
{
    if k > 0 {
        lemma_dot_bound(a, b, n, i, j, (k - 1) as nat);
        let x = a[i][k - 1];
        let y = b[k - 1][j];
        assert(i32::MIN <= x <= i32::MAX);
        assert(i32::MIN <= y <= i32::MAX);
        assert(-0x4000_0000_0000_0000 <= x * y <= 0x4000_0000_0000_0000) by (nonlinear_arith)
            requires
                -0x8000_0000 <= x <= 0x7fff_ffff,
                -0x8000_0000 <= y <= 0x7fff_ffff,
        ;
    }
}

/// Column `j` of the matrix read row after row from `v` is
/// `[v[j], v[n + j], v[2n + j], ...]`.
pub proof fn lemma_column_of_flat(n: nat, v: Seq<i32>, j: int)
    requires
        v.len() == n * n,
        0 <= j < n,
    ensures
        column(from_flat(n, v), j) == Seq::new(n, |k: int| v[k * n + j] as int),
{
    assert(column(from_flat(n, v), j) =~= Seq::new(n, |k: int| v[k * n + j] as int));
}

/// Sum, difference and scaling act entry by entry: entry `(i, j)` of the
/// result is computed from entry `(i, j)` of the operands alone.
pub proof fn lemma_entrywise(a: Seq<Seq<int>>, b: Seq<Seq<int>>, s: int, n: nat)
    requires
        is_square(a, n),
        is_square(b, n),
    ensures
        is_square(mat_sum(a, b), n),
        is_square(mat_diff(a, b), n),
        is_square(mat_scaled(a, s), n),
        forall|i: int, j: int|
            0 <= i < n && 0 <= j < n ==> {
                &&& #[trigger] mat_sum(a, b)[i][j] == a[i][j] + b[i][j]
                &&& mat_diff(a, b)[i][j] == a[i][j] - b[i][j]
                &&& mat_scaled(a, s)[i][j] == a[i][j] * s
            },
{
}

/// For 3-by-3 matrices each entry of the product is the familiar sum of three
/// products.
pub proof fn lemma_product_3(a: Seq<Seq<int>>, b: Seq<Seq<int>>)
    requires
        is_square(a, 3),
        is_square(b, 3),
    ensures
        is_square(mat_product(a, b), 3),
        forall|i: int, j: int|
            0 <= i < 3 && 0 <= j < 3 ==> #[trigger] mat_product(a, b)[i][j] == a[i][0] * b[0][j]
                + a[i][1] * b[1][j] + a[i][2] * b[2][j],
{
    reveal_with_fuel(dot, 4);
}

/// For 4-by-4 matrices each entry of the product is the familiar sum of four
/// products.
pub proof fn lemma_product_4(a: Seq<Seq<int>>, b: Seq<Seq<int>>)
    requires
        is_square(a, 4),
        is_square(b, 4),
    ensures
        is_square(mat_product(a, b), 4),
        forall|i: int, j: int|
            0 <= i < 4 && 0 <= j < 4 ==> #[trigger] mat_product(a, b)[i][j] == a[i][0] * b[0][j]
                + a[i][1] * b[1][j] + a[i][2] * b[2][j] + a[i][3] * b[3][j],
{
    reveal_with_fuel(dot, 5);
}

} // verus!
