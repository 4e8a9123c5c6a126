//! Column-major storage shared by the matrix types: `c[j][i]` holds the entry
//! at row `i`, column `j`. The routines here work for any size `N` and state
//! their results over the row-major model of `square`.
use vstd::prelude::*;
use crate::square::{
    build, counting_by_columns, counting_by_rows, dot, filled, fits_i32, from_flat, is_square,
    lemma_dot_bound, mat_diff, mat_product, mat_scaled, mat_sum,
};

verus! {

/// The rows of the matrix stored column by column in `c`.
pub open spec fn rows_of<const N: usize>(c: [[i32; N]; N]) -> Seq<Seq<int>> {
    build(N as nat, |i: int, j: int| c[j][i] as int)
}

/// The model of any storage is a square matrix of `i32` values.
pub proof fn lemma_rows_of_wf<const N: usize>(c: [[i32; N]; N])
    ensures
        is_square(rows_of(c), N as nat),
        fits_i32(rows_of(c)),
{
}

/// Two stores with the same model are the same.
pub proof fn lemma_rows_of_injective<const N: usize>(a: [[i32; N]; N], b: [[i32; N]; N])
    requires
        rows_of(a) == rows_of(b),
    ensures
        a == b,
{
    assert forall|j: int| 0 <= j < N implies a[j] == b[j] by {
        assert forall|i: int| 0 <= i < N implies a[j][i] == b[j][i] by {
            assert(rows_of(a)[i][j] == a[j][i] as int);
            assert(rows_of(b)[i][j] == b[j][i] as int);
        }
        assert(a[j] =~= b[j]);
    }
    assert(a =~= b);
}

/// A store with every entry `v`.
pub fn filled_with<const N: usize>(v: i32) -> (r: [[i32; N]; N])
    ensures
        rows_of(r) == filled(N as nat, v as int),
{
    let mut c: [[i32; N]; N] = [[v; N]; N];
    let mut j: usize = 0;
    while j < N
        invariant
            0 <= j <= N,
            forall|a: int, b: int| 0 <= a < j && 0 <= b < N ==> c[a][b] == v,
        decreases N - j,
    {
        let mut i: usize = 0;
        while i < N
            invariant
                0 <= j < N,
                0 <= i <= N,
                forall|a: int, b: int| 0 <= a < j && 0 <= b < N ==> c[a][b] == v,
                forall|b: int| 0 <= b < i ==> c[j as int][b] == v,
            decreases N - i,
        {
            c[j][i] = v;
            i = i + 1;
        }
        j = j + 1;
    }
    assert(rows_of(c) =~~= filled(N as nat, v as int));
    c
}

/// Entry-wise sum of two stores.
pub fn sum<const N: usize>(a: &[[i32; N]; N], b: &[[i32; N]; N]) -> (r: [[i32; N]; N])
    requires
        fits_i32(mat_sum(rows_of(*a), rows_of(*b))),
    ensures
        rows_of(r) == mat_sum(rows_of(*a), rows_of(*b)),
{
    let mut c: [[i32; N]; N] = [[0i32; N]; N];
    let mut j: usize = 0;
    while j < N
        invariant
            0 <= j <= N,
            fits_i32(mat_sum(rows_of(*a), rows_of(*b))),
            forall|x: int, y: int| 0 <= x < j && 0 <= y < N ==> c[x][y] == a[x][y] + b[x][y],
        decreases N - j,
    {
        let mut i: usize = 0;
        while i < N
            invariant
                0 <= j < N,
                0 <= i <= N,
                fits_i32(mat_sum(rows_of(*a), rows_of(*b))),
                forall|x: int, y: int| 0 <= x < j && 0 <= y < N ==> c[x][y] == a[x][y] + b[x][y],
                forall|y: int| 0 <= y < i ==> c[j as int][y] == a[j as int][y] + b[j as int][y],
            decreases N - i,
        {
            assert(mat_sum(rows_of(*a), rows_of(*b))[i as int][j as int] == a[j as int][i as int]
                + b[j as int][i as int]);
            c[j][i] = a[j][i] + b[j][i];
            i = i + 1;
        }
        j = j + 1;
    }
    assert(rows_of(c) =~~= mat_sum(rows_of(*a), rows_of(*b)));
    c
}

/// Entry-wise difference of two stores.
pub fn difference<const N: usize>(a: &[[i32; N]; N], b: &[[i32; N]; N]) -> (r: [[i32; N]; N])
    requires
        fits_i32(mat_diff(rows_of(*a), rows_of(*b))),
    ensures
        rows_of(r) == mat_diff(rows_of(*a), rows_of(*b)),
{
    let mut c: [[i32; N]; N] = [[0i32; N]; N];
    let mut j: usize = 0;
    while j < N
        invariant
            0 <= j <= N,
            fits_i32(mat_diff(rows_of(*a), rows_of(*b))),
            forall|x: int, y: int| 0 <= x < j && 0 <= y < N ==> c[x][y] == a[x][y] - b[x][y],
        decreases N - j,
    {
        let mut i: usize = 0;
        while i < N
            invariant
                0 <= j < N,
                0 <= i <= N,
                fits_i32(mat_diff(rows_of(*a), rows_of(*b))),
                forall|x: int, y: int| 0 <= x < j && 0 <= y < N ==> c[x][y] == a[x][y] - b[x][y],
                forall|y: int| 0 <= y < i ==> c[j as int][y] == a[j as int][y] - b[j as int][y],
            decreases N - i,
        {
            assert(mat_diff(rows_of(*a), rows_of(*b))[i as int][j as int] == a[j as int][i as int]
                - b[j as int][i as int]);
            c[j][i] = a[j][i] - b[j][i];
            i = i + 1;
        }
        j = j + 1;
    }
    assert(rows_of(c) =~~= mat_diff(rows_of(*a), rows_of(*b)));
    c
}

/// Every entry of a store multiplied by `s`.
pub fn scaled<const N: usize>(a: &[[i32; N]; N], s: i32) -> (r: [[i32; N]; N])
    requires
        fits_i32(mat_scaled(rows_of(*a), s as int)),
    ensures
        rows_of(r) == mat_scaled(rows_of(*a), s as int),
{
    let mut c: [[i32; N]; N] = [[0i32; N]; N];
    let mut j: usize = 0;
    while j < N
        invariant
            0 <= j <= N,
            fits_i32(mat_scaled(rows_of(*a), s as int)),
            forall|x: int, y: int| 0 <= x < j && 0 <= y < N ==> c[x][y] == a[x][y] * s,
        decreases N - j,
    {
        let mut i: usize = 0;
        while i < N
            invariant
                0 <= j < N,
                0 <= i <= N,
                fits_i32(mat_scaled(rows_of(*a), s as int)),
                forall|x: int, y: int| 0 <= x < j && 0 <= y < N ==> c[x][y] == a[x][y] * s,
                forall|y: int| 0 <= y < i ==> c[j as int][y] == a[j as int][y] * s,
            decreases N - i,
        {
            assert(mat_scaled(rows_of(*a), s as int)[i as int][j as int] == a[j as int][i as int]
                * s);
            c[j][i] = a[j][i] * s;
            i = i + 1;
        }
        j = j + 1;
    }
    assert(rows_of(c) =~~= mat_scaled(rows_of(*a), s as int));
    c
}

/// The matrix product of two stores, one row-by-column sum per entry. The
/// sums are taken in `i128`, wide enough for any `N` terms of `i32` products,
/// so only the final entries need to fit in `i32`.
pub fn product<const N: usize>(a: &[[i32; N]; N], b: &[[i32; N]; N]) -> (r: [[i32; N]; N])
    requires
        fits_i32(mat_product(rows_of(*a), rows_of(*b))),
    ensures
        rows_of(r) == mat_product(rows_of(*a), rows_of(*b)),
{
    let ghost ra = rows_of(*a);
    let ghost rb = rows_of(*b);
    proof {
        lemma_rows_of_wf(*a);
        lemma_rows_of_wf(*b);
    }
    let mut c: [[i32; N]; N] = [[0i32; N]; N];
    let mut j: usize = 0;
    while j < N
        invariant
            0 <= j <= N,
            ra == rows_of(*a),
            rb == rows_of(*b),
            is_square(ra, N as nat),
            is_square(rb, N as nat),
            fits_i32(ra),
            fits_i32(rb),
            fits_i32(mat_product(ra, rb)),
            forall|x: int, y: int|
                0 <= x < j && 0 <= y < N ==> c[x][y] == mat_product(ra, rb)[y][x],
        decreases N - j,
    {
        let mut i: usize = 0;
        while i < N
            invariant
                0 <= j < N,
                0 <= i <= N,
                ra == rows_of(*a),
                rb == rows_of(*b),
                is_square(ra, N as nat),
                is_square(rb, N as nat),
                fits_i32(ra),
                fits_i32(rb),
                fits_i32(mat_product(ra, rb)),
                forall|x: int, y: int|
                    0 <= x < j && 0 <= y < N ==> c[x][y] == mat_product(ra, rb)[y][x],
                forall|y: int| 0 <= y < i ==> c[j as int][y] == mat_product(ra, rb)[y][j as int],
            decreases N - i,
        {
            let mut acc: i128 = 0;
            let mut k: usize = 0;
            while k < N
                invariant
                    0 <= j < N,
                    0 <= i < N,
                    0 <= k <= N,
                    ra == rows_of(*a),
                    rb == rows_of(*b),
                    is_square(ra, N as nat),
                    is_square(rb, N as nat),
                    fits_i32(ra),
                    fits_i32(rb),
                    acc == dot(ra, rb, i as int, j as int, k as nat),
                decreases N - k,
            {
                let x: i32 = a[k][i];
                let y: i32 = b[j][k];
                assert(ra[i as int][k as int] == x);
                assert(rb[k as int][j as int] == y);
                proof {
                    lemma_dot_bound(ra, rb, N as nat, i as int, j as int, (k + 1) as nat);
                }
                assert(-0x4000_0000_0000_0000 <= x as int * y as int <= 0x4000_0000_0000_0000)
                    by (nonlinear_arith)
                    requires
                        i32::MIN <= x <= i32::MAX,
                        i32::MIN <= y <= i32::MAX,
                ;
                acc = acc + (x as i128) * (y as i128);
                k = k + 1;
            }
            assert(mat_product(ra, rb)[i as int][j as int] == acc);
            c[j][i] = acc as i32;
            i = i + 1;
        }
        j = j + 1;
    }
    assert(rows_of(c) =~~= mat_product(ra, rb));
    c
}

/// A store whose entry at row `i`, column `j` is `i * N + j`, or `j * N + i`
/// when `by_columns` holds.
pub fn counting<const N: usize>(by_columns: bool) -> (r: [[i32; N]; N])
    requires
        N * N <= i32::MAX,
    ensures
        by_columns ==> rows_of(r) == counting_by_columns(N as nat),
        !by_columns ==> rows_of(r) == counting_by_rows(N as nat),
{
    let mut c: [[i32; N]; N] = [[0i32; N]; N];
    let mut j: usize = 0;
    while j < N
        invariant
            0 <= j <= N,
            N * N <= i32::MAX,
            forall|x: int, y: int|
                0 <= x < j && 0 <= y < N ==> c[x][y] == if by_columns {
                    x * N + y
                } else {
                    y * N + x
                },
        decreases N - j,
    {
        let mut i: usize = 0;
        while i < N
            invariant
                0 <= j < N,
                0 <= i <= N,
                N * N <= i32::MAX,
                forall|x: int, y: int|
                    0 <= x < j && 0 <= y < N ==> c[x][y] == if by_columns {
                        x * N + y
                    } else {
                        y * N + x
                    },
                forall|y: int|
                    0 <= y < i ==> c[j as int][y] == if by_columns {
                        j * N + y
                    } else {
                        y * N + j
                    },
            decreases N - i,
        {
            assert(i * N + j < N * N && j * N + i < N * N) by (nonlinear_arith)
                requires
                    i < N,
                    j < N,
            ;
            if by_columns {
                c[j][i] = (j * N + i) as i32;
            } else {
                c[j][i] = (i * N + j) as i32;
            }
            i = i + 1;
        }
        j = j + 1;
    }
    if by_columns {
        assert(rows_of(c) =~~= counting_by_columns(N as nat));
    } else {
        assert(rows_of(c) =~~= counting_by_rows(N as nat));
    }
    c
}

/// The store of the matrix whose rows are given one after another in `v`.
pub fn from_row_major<const N: usize>(v: &[i32]) -> (r: [[i32; N]; N])
    requires
        v@.len() == N * N,
    ensures
        rows_of(r) == from_flat(N as nat, v@),
{
    let mut c: [[i32; N]; N] = [[0i32; N]; N];
    let mut j: usize = 0;
    while j < N
        invariant
            0 <= j <= N,
            v@.len() == N * N,
            forall|x: int, y: int| 0 <= x < j && 0 <= y < N ==> c[x][y] == v@[y * N + x],
        decreases N - j,
    {
        let mut i: usize = 0;
        while i < N
            invariant
                0 <= j < N,
                0 <= i <= N,
                v@.len() == N * N,
                forall|x: int, y: int| 0 <= x < j && 0 <= y < N ==> c[x][y] == v@[y * N + x],
                forall|y: int| 0 <= y < i ==> c[j as int][y] == v@[y * N + j],
            decreases N - i,
        {
            let len: usize = v.len();
            assert(i * N + j < N * N) by (nonlinear_arith)
                requires
                    i < N,
                    j < N,
            ;
            assert(i * N + j < len);
            c[j][i] = v[i * N + j];
            i = i + 1;
        }
        j = j + 1;
    }
    assert(rows_of(c) =~~= from_flat(N as nat, v@));
    c
}

/// Whether two stores hold the same matrix, compared entry by entry.
pub fn same<const N: usize>(a: &[[i32; N]; N], b: &[[i32; N]; N]) -> (r: bool)
    ensures
        r == (rows_of(*a) == rows_of(*b)),
{
    let mut j: usize = 0;
    while j < N
        invariant
            0 <= j <= N,
            forall|x: int, y: int| 0 <= x < j && 0 <= y < N ==> a[x][y] == b[x][y],
        decreases N - j,
    {
        let mut i: usize = 0;
        while i < N
            invariant
                0 <= j < N,
                0 <= i <= N,
                forall|x: int, y: int| 0 <= x < j && 0 <= y < N ==> a[x][y] == b[x][y],
                forall|y: int| 0 <= y < i ==> a[j as int][y] == b[j as int][y],
            decreases N - i,
        {
            if a[j][i] != b[j][i] {
                assert(rows_of(*a)[i as int][j as int] != rows_of(*b)[i as int][j as int]);
                return false;
            }
            i = i + 1;
        }
        j = j + 1;
    }
    assert(rows_of(*a) =~~= rows_of(*b));
    true
}

} // verus!
