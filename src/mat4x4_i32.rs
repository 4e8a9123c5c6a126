//! The 4-by-4 matrix of `i32`.
use vstd::prelude::*;
use vstd::std_specs::cmp::PartialEqSpec;
use crate::columns::{
    counting, difference, filled_with, from_row_major, lemma_rows_of_injective, lemma_rows_of_wf,
    product, rows_of, same, scaled, sum,
};
use crate::constants::{SIXTEEN, FOUR};
use crate::square::{
    column, counting_by_columns, counting_by_rows, filled, fits_i32, from_flat, ints, is_square,
    mat_diff, mat_product, mat_scaled, mat_sum,
};

verus! {

/// One stored column of a 4-by-4 matrix, top to bottom.
pub type Vec4D = [i32; FOUR];

/// The sixteen entries of a 4-by-4 matrix, row after row.
pub type Vec16D = [i32; SIXTEEN];

/// Four columns of four entries each.
pub type Mat4x4 = [Vec4D; FOUR];

/// A 4-by-4 matrix of `i32`.
///
/// The entries are stored column by column: `inner[j][i]` holds the entry at
/// row `i`, column `j`, so that a column is handed out without copying. All
/// access goes through `at` and `col_at`, and the view is the row-major
/// matrix of mathematical integers, so callers never see the storage order.
#[derive(Clone, Copy, Debug)]
pub struct Matrix4x4 {
    inner: Mat4x4,
}

impl View for Matrix4x4 {
    type V = Seq<Seq<int>>;

    closed spec fn view(&self) -> Seq<Seq<int>> {
        rows_of(self.inner)
    }
}

impl Matrix4x4 {
    /// The matrix whose view is `m`, for a 4-by-4 `m` with entries in the
    /// range of `i32`.
    pub closed spec fn with_view(m: Seq<Seq<int>>) -> Matrix4x4 {
        choose|r: Matrix4x4| r@ == m
    }

    /// Every matrix views as 4 rows of 4 entries, each in the range of `i32`.
    pub proof fn lemma_view_wf(self)
        ensures
            is_square(self@, 4),
            fits_i32(self@),
    {
        lemma_rows_of_wf(self.inner);
    }

    /// A matrix is determined by its view.
    pub proof fn lemma_with_view(self)
        ensures
            Matrix4x4::with_view(self@) == self,
    {
        assert(exists|r: Matrix4x4| #[trigger] r@ == self@) by {
            assert(self@ == self@);
        }
        let r = Matrix4x4::with_view(self@);
        lemma_rows_of_injective(r.inner, self.inner);
    }

    /// The matrix whose entry at row `i`, column `j` is `i * 4 + j`.
    pub fn new_row_major() -> (r: Self)
        ensures
            r@ == counting_by_rows(4),
    {
        Matrix4x4 { inner: counting::<FOUR>(false) }
    }

    /// The matrix whose entry at row `i`, column `j` is `j * 4 + i`: the
    /// transpose of `new_row_major`.
    pub fn new_col_major() -> (r: Self)
        ensures
            r@ == counting_by_columns(4),
    {
        Matrix4x4 { inner: counting::<FOUR>(true) }
    }

    /// The matrix with the given entries, `nij` at row `i`, column `j`.
    pub fn new(
        n00: i32,
        n01: i32,
        n02: i32,
        n03: i32,
        n10: i32,
        n11: i32,
        n12: i32,
        n13: i32,
        n20: i32,
        n21: i32,
        n22: i32,
        n23: i32,
        n30: i32,
        n31: i32,
        n32: i32,
        n33: i32,
    ) -> (r: Self)
        ensures
            r@ == seq![
                seq![n00 as int, n01 as int, n02 as int, n03 as int],
                seq![n10 as int, n11 as int, n12 as int, n13 as int],
                seq![n20 as int, n21 as int, n22 as int, n23 as int],
                seq![n30 as int, n31 as int, n32 as int, n33 as int],
            ],
    {
        let r = Matrix4x4 {
            inner: [
                [n00, n10, n20, n30],
                [n01, n11, n21, n31],
                [n02, n12, n22, n32],
                [n03, n13, n23, n33],
            ],
        };
        assert(r@ =~~= seq![
            seq![n00 as int, n01 as int, n02 as int, n03 as int],
            seq![n10 as int, n11 as int, n12 as int, n13 as int],
            seq![n20 as int, n21 as int, n22 as int, n23 as int],
            seq![n30 as int, n31 as int, n32 as int, n33 as int],
        ]);
        r
    }

    /// The entry at row `i`, column `j`. Both indices run from 0 to 3: an
    /// index equal to the size is out of range and refused by the
    /// precondition, like every larger one.
    pub fn at(&self, i: usize, j: usize) -> (r: i32)
        requires
            i < FOUR,
            j < FOUR,
        ensures
            r == self@[i as int][j as int],
    {
        self.inner[j][i]
    }

    /// Column `j`, top to bottom, as it is stored; `j` runs from 0 to 3.
    pub fn col_at(&self, j: usize) -> (r: &Vec4D)
        requires
            j < FOUR,
        ensures
            ints(r@) == column(self@, j as int),
    {
        let r = &self.inner[j];
        assert(ints(r@) =~= column(self@, j as int));
        r
    }
}

impl Default for Matrix4x4 {
    /// The zero matrix.
    fn default() -> (r: Self)
        ensures
            r@ == filled(4, 0),
    {
        Matrix4x4 { inner: filled_with::<FOUR>(0) }
    }
}

impl From<Vec16D> for Matrix4x4 {
    /// The matrix whose rows are given one after another in `v`: the entry at
    /// row `i`, column `j` is `v[i * 4 + j]`.
    fn from(v: Vec16D) -> (r: Self)
        ensures
            r@ == from_flat(4, v@),
    {
        let r = Matrix4x4 { inner: from_row_major::<FOUR>(v.as_slice()) };
        proof {
            r.lemma_with_view();
        }
        r
    }
}

impl vstd::std_specs::convert::FromSpecImpl<Vec16D> for Matrix4x4 {
    open spec fn obeys_from_spec() -> bool {
        true
    }

    open spec fn from_spec(v: Vec16D) -> Matrix4x4 {
        Matrix4x4::with_view(from_flat(4, v@))
    }
}

impl From<i32> for Matrix4x4 {
    /// The matrix with every entry `v`.
    fn from(v: i32) -> (r: Self)
        ensures
            r@ == filled(4, v as int),
    {
        let r = Matrix4x4 { inner: filled_with::<FOUR>(v) };
        proof {
            r.lemma_with_view();
        }
        r
    }
}

impl vstd::std_specs::convert::FromSpecImpl<i32> for Matrix4x4 {
    open spec fn obeys_from_spec() -> bool {
        true
    }

    open spec fn from_spec(v: i32) -> Matrix4x4 {
        Matrix4x4::with_view(filled(4, v as int))
    }
}

impl core::ops::Add for Matrix4x4 {
    type Output = Matrix4x4;

    /// Entry-wise sum; every entry of the sum must fit in `i32`.
    fn add(self, other: Self) -> (r: Self::Output)
        ensures
            r@ == mat_sum(self@, other@),
    {
        let r = Matrix4x4 { inner: sum::<FOUR>(&self.inner, &other.inner) };
        proof {
            r.lemma_with_view();
        }
        r
    }
}

impl vstd::std_specs::ops::AddSpecImpl for Matrix4x4 {
    open spec fn obeys_add_spec() -> bool {
        true
    }

    open spec fn add_req(self, other: Matrix4x4) -> bool {
        fits_i32(mat_sum(self@, other@))
    }

    open spec fn add_spec(self, other: Matrix4x4) -> Matrix4x4 {
        Matrix4x4::with_view(mat_sum(self@, other@))
    }
}

impl core::ops::Sub for Matrix4x4 {
    type Output = Matrix4x4;

    /// Entry-wise difference; every entry of the difference must fit in `i32`.
    fn sub(self, other: Self) -> (r: Self::Output)
        ensures
            r@ == mat_diff(self@, other@),
    {
        let r = Matrix4x4 { inner: difference::<FOUR>(&self.inner, &other.inner) };
        proof {
            r.lemma_with_view();
        }
        r
    }
}

impl vstd::std_specs::ops::SubSpecImpl for Matrix4x4 {
    open spec fn obeys_sub_spec() -> bool {
        true
    }

    open spec fn sub_req(self, other: Matrix4x4) -> bool {
        fits_i32(mat_diff(self@, other@))
    }

    open spec fn sub_spec(self, other: Matrix4x4) -> Matrix4x4 {
        Matrix4x4::with_view(mat_diff(self@, other@))
    }
}

impl core::ops::Mul<i32> for Matrix4x4 {
    type Output = Matrix4x4;

    /// Every entry multiplied by `scalar`; each product must fit in `i32`.
    fn mul(self, scalar: i32) -> (r: Self::Output)
        ensures
            r@ == mat_scaled(self@, scalar as int),
    {
        let r = Matrix4x4 { inner: scaled::<FOUR>(&self.inner, scalar) };
        proof {
            r.lemma_with_view();
        }
        r
    }
}

impl vstd::std_specs::ops::MulSpecImpl<i32> for Matrix4x4 {
    open spec fn obeys_mul_spec() -> bool {
        true
    }

    open spec fn mul_req(self, scalar: i32) -> bool {
        fits_i32(mat_scaled(self@, scalar as int))
    }

    open spec fn mul_spec(self, scalar: i32) -> Matrix4x4 {
        Matrix4x4::with_view(mat_scaled(self@, scalar as int))
    }
}

impl core::ops::Mul<Matrix4x4> for Matrix4x4 {
    type Output = Matrix4x4;

    /// The matrix product, rows of `self` by columns of `other`; every entry
    /// of the product must fit in `i32`.
    fn mul(self, other: Matrix4x4) -> (r: Self::Output)
        ensures
            r@ == mat_product(self@, other@),
    {
        let r = Matrix4x4 { inner: product::<FOUR>(&self.inner, &other.inner) };
        proof {
            r.lemma_with_view();
        }
        r
    }
}

impl vstd::std_specs::ops::MulSpecImpl<Matrix4x4> for Matrix4x4 {
    open spec fn obeys_mul_spec() -> bool {
        true
    }

    open spec fn mul_req(self, other: Matrix4x4) -> bool {
        fits_i32(mat_product(self@, other@))
    }

    open spec fn mul_spec(self, other: Matrix4x4) -> Matrix4x4 {
        Matrix4x4::with_view(mat_product(self@, other@))
    }
}

impl PartialEq for Matrix4x4 {
    /// Exact comparison of all sixteen entries.
    fn eq(&self, other: &Self) -> (r: bool)
        ensures
            r == (self@ == other@),
    {
        same::<FOUR>(&self.inner, &other.inner)
    }
}

impl vstd::std_specs::cmp::PartialEqSpecImpl for Matrix4x4 {
    open spec fn obeys_eq_spec() -> bool {
        true
    }

    open spec fn eq_spec(&self, other: &Matrix4x4) -> bool {
        self@ == other@
    }
}

/// Equality of 4-by-4 matrices is reflexive and symmetric, and holds exactly
/// when every entry is equal.
pub proof fn lemma_equality(a: Matrix4x4, b: Matrix4x4)
    ensures
        a.eq_spec(&a),
        a.eq_spec(&b) == b.eq_spec(&a),
        a.eq_spec(&b) <==> forall|i: int, j: int| 0 <= i < 4 && 0 <= j < 4 ==> a@[i][j] == b@[i][j],
{
    a.lemma_view_wf();
    b.lemma_view_wf();
    if forall|i: int, j: int| 0 <= i < 4 && 0 <= j < 4 ==> a@[i][j] == b@[i][j] {
        assert(a@ =~~= b@);
    }
}

} // verus!
