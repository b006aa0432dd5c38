//! Four-by-four matrices in the layout a renderer applies to column vectors.

use vstd::prelude::*;
use crate::scalar::{Scalar, ZERO_BITS, ONE_BITS};

verus! {

/// A 4×4 transform, stored column by column.
///
/// Transforms are written down row by row, as they appear on paper, and
/// converted once by [`Matrix4::from_row_major`]. The renderer receives the
/// columns from [`Matrix4::to_column_major`] and applies the matrix as
/// `M * column_vector`.
///
/// The view of a matrix is the transform as four rows of four entries.
#[derive(Clone, Copy, Debug, PartialEq, Eq)]
pub struct Matrix4 {
    pub cols: [[Scalar; 4]; 4],
}

/// Four rows given as arrays, as a sequence of sequences.
pub open spec fn rows_of(rows: [[Scalar; 4]; 4]) -> Seq<Seq<Scalar>> {
    Seq::new(4, |r: int| Seq::new(4, |c: int| rows[r][c]))
}

/// Whether two transforms, given as rows, agree entry by entry in value.
/// Entries that are `0.0` and `-0.0` agree; an entry that is a NaN agrees
/// with nothing.
pub open spec fn same_values(a: Seq<Seq<Scalar>>, b: Seq<Seq<Scalar>>) -> bool {
    forall|r: int, c: int| 0 <= r < 4 && 0 <= c < 4 ==> (#[trigger] a[r][c]).same_value(b[r][c])
}

impl View for Matrix4 {
    type V = Seq<Seq<Scalar>>;

    open spec fn view(&self) -> Seq<Seq<Scalar>> {
        Seq::new(4, |r: int| Seq::new(4, |c: int| self.cols[c][r]))
    }
}

impl Matrix4 {
    /// The identity transform as rows.
    pub open spec fn identity_rows() -> Seq<Seq<Scalar>> {
        let o = Scalar::from_bits(ZERO_BITS);
        let i = Scalar::from_bits(ONE_BITS);
        seq![seq![i, o, o, o], seq![o, i, o, o], seq![o, o, i, o], seq![o, o, o, i]]
    }

    /// Converts a transform written as four rows into column-major storage.
    pub fn from_row_major(rows: [[Scalar; 4]; 4]) -> (m: Matrix4)
        ensures
            m@ == rows_of(rows),
    {
        let m = Matrix4 {
            cols: [
                [rows[0][0], rows[1][0], rows[2][0], rows[3][0]],
                [rows[0][1], rows[1][1], rows[2][1], rows[3][1]],
                [rows[0][2], rows[1][2], rows[2][2], rows[3][2]],
                [rows[0][3], rows[1][3], rows[2][3], rows[3][3]],
            ],
        };
        assert(m@ =~~= rows_of(rows));
        m
    }

    /// The four columns, in the order the renderer expects: entry `[c][r]`
    /// of the result is the entry in row `r` and column `c` of the transform.
    pub fn to_column_major(&self) -> (cols: [[Scalar; 4]; 4])
        ensures
            forall|r: int, c: int| 0 <= r < 4 && 0 <= c < 4 ==> #[trigger] cols[c][r] == self@[r][c],
    {
        self.cols
    }

    /// The identity transform.
    pub fn identity() -> (m: Matrix4)
        ensures
            m@ == Matrix4::identity_rows(),
    {
        let o = Scalar::from_bits(ZERO_BITS);
        let i = Scalar::from_bits(ONE_BITS);
        let m = Matrix4::from_row_major([[i, o, o, o], [o, i, o, o], [o, o, i, o], [o, o, o, i]]);
        assert(m@ =~~= Matrix4::identity_rows());
        m
    }
}

} // verus!
