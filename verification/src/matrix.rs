//! The trace as a `p3_matrix` row-major matrix over `p3_mersenne_31`.

use crate::columns::values;
use crate::field::Fp;
use p3_matrix::dense::{DenseMatrix, RowMajorMatrix};
use p3_mersenne_31::Mersenne31;
use vstd::prelude::*;

verus! {

/// `p3_mersenne_31::Mersenne31`, carried through as an opaque value.
#[verifier::external_type_specification]
#[verifier::external_body]
pub struct ExMersenne31(Mersenne31);

/// `p3_matrix::dense::DenseMatrix`, carried through as an opaque value.
#[verifier::external_type_specification]
#[verifier::external_body]
#[verifier::reject_recursive_types(T)]
#[verifier::reject_recursive_types(V)]
pub struct ExDenseMatrix<T, V>(DenseMatrix<T, V>);

/// The canonical representatives of the values that a matrix holds, row
/// after row.
pub uninterp spec fn matrix_values(matrix: RowMajorMatrix<Mersenne31>) -> Seq<nat>;

/// The number of columns of a matrix.
pub uninterp spec fn matrix_width(matrix: RowMajorMatrix<Mersenne31>) -> nat;

/// `RowMajorMatrix::new` on the elements that `Mersenne31::new` makes of
/// the given field elements.
///
/// Trusted: the matrix holds the given values in the given order, and has
/// the given width. The length of the values is a multiple of the width,
/// as `new` expects.
#[verifier::external_body]
pub(crate) fn row_major_matrix(elements: Vec<Fp>, width: usize) -> (matrix: RowMajorMatrix<
    Mersenne31,
>)
    requires
        width > 0,
        elements@.len() % (width as nat) == 0,
    ensures
        matrix_values(matrix) == values(elements@),
        matrix_width(matrix) == width,
{
    let converted = elements.iter().map(|f| Mersenne31::new(f.as_canonical_u32())).collect();
    RowMajorMatrix::new(converted, width)
}

} // verus!
