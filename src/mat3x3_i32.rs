//! The 3-by-3 matrix of `i32`.
use vstd::prelude::*;
use vstd::std_specs::cmp::PartialEqSpec;
use crate::columns::{
    counting, difference, filled_with, from_row_major, lemma_rows_of_injective, lemma_rows_of_wf,
    product, rows_of, same, scaled, sum,
};
use crate::constants::{NINE, THREE};
use crate::square::{
    column, counting_by_columns, counting_by_rows, filled, fits_i32, from_flat, ints, is_square,
    mat_diff, mat_product, mat_scaled, mat_sum,
};

verus! {

/// One stored column of a 3-by-3 matrix, top to bottom.
pub type Vec3D = [i32; THREE];

/// The nine entries of a 3-by-3 matrix, row after row.
pub type Vec9D = [i32; NINE];

/// Three columns of three entries each.
pub type Mat3x3 = [Vec3D; THREE];

/// A 3-by-3 matrix of `i32`.
///
/// The entries are stored column by column: `inner[j][i]` holds the entry at
/// row `i`, column `j`, so that a column is handed out without copying. All
/// access goes through `at` and `col_at`, and the view is the row-major
/// matrix of mathematical integers, so callers never see the storage order.
#[derive(Clone, Copy, Debug)]
pub struct Matrix3x3 {
    inner: Mat3x3,
}

impl View for Matrix3x3 {
    type V = Seq<Seq<int>>;

    closed spec fn view(&self) -> Seq<Seq<int>> {
        rows_of(self.inner)
    }
}

impl Matrix3x3 {
    /// The matrix whose view is `m`, for a 3-by-3 `m` with entries in the
    /// range of `i32`.
    pub closed spec fn with_view(m: Seq<Seq<int>>) -> Matrix3x3 {
        choose|r: Matrix3x3| r@ == m
    }

    /// Every matrix views as 3 rows of 3 entries, each in the range of `i32`.
    pub proof fn lemma_view_wf(self)
        ensures
            is_square(self@, 3),
            fits_i32(self@),
    {
        lemma_rows_of_wf(self.inner);
    }

    /// A matrix is determined by its view.
    pub proof fn lemma_with_view(self)
        ensures
            Matrix3x3::with_view(self@) == self,
    {
        assert(exists|r: Matrix3x3| #[trigger] r@ == self@) by {
            assert(self@ == self@);
        }
        let r = Matrix3x3::with_view(self@);
        lemma_rows_of_injective(r.inner, self.inner);
    }

    /// The matrix whose entry at row `i`, column `j` is `i * 3 + j`.
    pub fn new_row_major() -> (r: Self)
        ensures
            r@ == counting_by_rows(3),
    {
        Matrix3x3 { inner: counting::<THREE>(false) }
    }

    /// The matrix whose entry at row `i`, column `j` is `j * 3 + i`: the
    /// transpose of `new_row_major`.
    pub fn new_col_major() -> (r: Self)
        ensures
            r@ == counting_by_columns(3),
    {
        Matrix3x3 { inner: counting::<THREE>(true) }
    }

    /// The matrix with the given entries, `nij` at row `i`, column `j`.
    pub fn new(
        n00: i32,
        n01: i32,
        n02: i32,
        n10: i32,
        n11: i32,
        n12: i32,
        n20: i32,
        n21: i32,
        n22: i32,
    ) -> (r: Self)
        ensures
            r@ == seq![
                seq![n00 as int, n01 as int, n02 as int],
                seq![n10 as int, n11 as int, n12 as int],
                seq![n20 as int, n21 as int, n22 as int],
            ],
    {
        let r = Matrix3x3 { inner: [[n00, n10, n20], [n01, n11, n21], [n02, n12, n22]] };
        assert(r@ =~~= seq![
            seq![n00 as int, n01 as int, n02 as int],
            seq![n10 as int, n11 as int, n12 as int],
            seq![n20 as int, n21 as int, n22 as int],
        ]);
        r
    }

    /// The entry at row `i`, column `j`. Both indices run from 0 to 2: an
    /// index equal to the size is out of range and refused by the
    /// precondition, like every larger one.
    pub fn at(&self, i: usize, j: usize) -> (r: i32)
        requires
            i < THREE,
            j < THREE,
        ensures
            r == self@[i as int][j as int],
    {
        self.inner[j][i]
    }

    /// Column `j`, top to bottom, as it is stored; `j` runs from 0 to 2.
    pub fn col_at(&self, j: usize) -> (r: &Vec3D)
        requires
            j < THREE,
        ensures
            ints(r@) == column(self@, j as int),
    {
        let r = &self.inner[j];
        assert(ints(r@) =~= column(self@, j as int));
        r
    }
}

impl Default for Matrix3x3 {
    /// The zero matrix.
    fn default() -> (r: Self)
        ensures
            r@ == filled(3, 0),
    {
        Matrix3x3 { inner: filled_with::<THREE>(0) }
    }
}

impl From<Vec9D> for Matrix3x3 {
    /// The matrix whose rows are given one after another in `v`: the entry at
    /// row `i`, column `j` is `v[i * 3 + j]`.
    fn from(v: Vec9D) -> (r: Self)
        ensures
            r@ == from_flat(3, v@),
    {
        let r = Matrix3x3 { inner: from_row_major::<THREE>(v.as_slice()) };
        proof {
            r.lemma_with_view();
        }
        r
    }
}

impl vstd::std_specs::convert::FromSpecImpl<Vec9D> for Matrix3x3 {
    open spec fn obeys_from_spec() -> bool {
        true
    }

    open spec fn from_spec(v: Vec9D) -> Matrix3x3 {
        Matrix3x3::with_view(from_flat(3, v@))
    }
}

impl From<i32> for Matrix3x3 {
    /// The matrix with every entry `v`.
    fn from(v: i32) -> (r: Self)
        ensures
            r@ == filled(3, v as int),
    {
        let r = Matrix3x3 { inner: filled_with::<THREE>(v) };
        proof {
            r.lemma_with_view();
        }
        r
    }
}

impl vstd::std_specs::convert::FromSpecImpl<i32> for Matrix3x3 {
    open spec fn obeys_from_spec() -> bool {
        true
    }

    open spec fn from_spec(v: i32) -> Matrix3x3 {
        Matrix3x3::with_view(filled(3, v as int))
    }
}

impl core::ops::Add for Matrix3x3 {
    type Output = Matrix3x3;

    /// Entry-wise sum; every entry of the sum must fit in `i32`.
    fn add(self, other: Self) -> (r: Self::Output)
        ensures
            r@ == mat_sum(self@, other@),
    {
        let r = Matrix3x3 { inner: sum::<THREE>(&self.inner, &other.inner) };
        proof {
            r.lemma_with_view();
        }
        r
    }
}

impl vstd::std_specs::ops::AddSpecImpl for Matrix3x3 {
    open spec fn obeys_add_spec() -> bool {
        true
    }

    open spec fn add_req(self, other: Matrix3x3) -> bool {
        fits_i32(mat_sum(self@, other@))
    }

    open spec fn add_spec(self, other: Matrix3x3) -> Matrix3x3 {
        Matrix3x3::with_view(mat_sum(self@, other@))
    }
}

impl core::ops::Sub for Matrix3x3 {
    type Output = Matrix3x3;

    /// Entry-wise difference; every entry of the difference must fit in `i32`.
    fn sub(self, other: Self) -> (r: Self::Output)
        ensures
            r@ == mat_diff(self@, other@),
    {
        let r = Matrix3x3 { inner: difference::<THREE>(&self.inner, &other.inner) };
        proof {
            r.lemma_with_view();
        }
        r
    }
}

impl vstd::std_specs::ops::SubSpecImpl for Matrix3x3 {
    open spec fn obeys_sub_spec() -> bool {
        true
    }

    open spec fn sub_req(self, other: Matrix3x3) -> bool {
        fits_i32(mat_diff(self@, other@))
    }

    open spec fn sub_spec(self, other: Matrix3x3) -> Matrix3x3 {
        Matrix3x3::with_view(mat_diff(self@, other@))
    }
}

impl core::ops::Mul<i32> for Matrix3x3 {
    type Output = Matrix3x3;

    /// Every entry multiplied by `scalar`; each product must fit in `i32`.
    fn mul(self, scalar: i32) -> (r: Self::Output)
        ensures
            r@ == mat_scaled(self@, scalar as int),
    {
        let r = Matrix3x3 { inner: scaled::<THREE>(&self.inner, scalar) };
        proof {
            r.lemma_with_view();
        }
        r
    }
}

impl vstd::std_specs::ops::MulSpecImpl<i32> for Matrix3x3 {
    open spec fn obeys_mul_spec() -> bool {
        true
    }

    open spec fn mul_req(self, scalar: i32) -> bool {
        fits_i32(mat_scaled(self@, scalar as int))
    }

    open spec fn mul_spec(self, scalar: i32) -> Matrix3x3 {
        Matrix3x3::with_view(mat_scaled(self@, scalar as int))
    }
}

impl core::ops::Mul<Matrix3x3> for Matrix3x3 {
    type Output = Matrix3x3;

    /// The matrix product, rows of `self` by columns of `other`; every entry
    /// of the product must fit in `i32`.
    fn mul(self, other: Matrix3x3) -> (r: Self::Output)
        ensures
            r@ == mat_product(self@, other@),
    {
        let r = Matrix3x3 { inner: product::<THREE>(&self.inner, &other.inner) };
        proof {
            r.lemma_with_view();
        }
        r
    }
}

impl vstd::std_specs::ops::MulSpecImpl<Matrix3x3> for Matrix3x3 {
    open spec fn obeys_mul_spec() -> bool {
        true
    }

    open spec fn mul_req(self, other: Matrix3x3) -> bool {
        fits_i32(mat_product(self@, other@))
    }

    open spec fn mul_spec(self, other: Matrix3x3) -> Matrix3x3 {
        Matrix3x3::with_view(mat_product(self@, other@))
    }
}

impl PartialEq for Matrix3x3 {
    /// Exact comparison of all nine entries.
    fn eq(&self, other: &Self) -> (r: bool)
        ensures
            r == (self@ == other@),
    {
        same::<THREE>(&self.inner, &other.inner)
    }
}

impl vstd::std_specs::cmp::PartialEqSpecImpl for Matrix3x3 {
    open spec fn obeys_eq_spec() -> bool {
        true
    }

    open spec fn eq_spec(&self, other: &Matrix3x3) -> bool {
        self@ == other@
    }
}

/// Equality of 3-by-3 matrices is reflexive and symmetric, and holds exactly
/// when every entry is equal.
pub proof fn lemma_equality(a: Matrix3x3, b: Matrix3x3)
    ensures
        a.eq_spec(&a),
        a.eq_spec(&b) == b.eq_spec(&a),
        a.eq_spec(&b) <==> forall|i: int, j: int| 0 <= i < 3 && 0 <= j < 3 ==> a@[i][j] == b@[i][j],
{
    a.lemma_view_wf();
    b.lemma_view_wf();
    if forall|i: int, j: int| 0 <= i < 3 && 0 <= j < 3 ==> a@[i][j] == b@[i][j] {
        assert(a@ =~~= b@);
    }
}

} // verus!
