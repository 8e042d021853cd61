//! Inverses from LU factors and of triangular matrices, in place.
use vstd::prelude::*;
use crate::cholesky::{square_fits, Diag};
use crate::error::LapackError;
use crate::flags::Uplo;
use crate::layout::MatrixLayout;
use crate::solve::pivots_in_range;

verus! {

/// Position of the pivot argument of the native inverse from LU factors.
pub const INVERSE_PIVOT_ARG: u32 = 4;

/// Native arguments of an inverse of order `n` computed over the factored
/// buffer. The inverse of the transpose is the transpose of the inverse, so a
/// row-major buffer needs no other change than the triangle named.
#[derive(Clone, Copy, Debug, PartialEq, Eq, Structural)]
pub struct InverseCall {
    pub n: i32,
    pub lda: i32,
    pub uplo: Uplo,
    pub diag: Diag,
}

pub open spec fn lu_inverse_outcome(layout: MatrixLayout, a_len: usize, pivot: Seq<i32>) -> Result<InverseCall, LapackError> {
    if !square_fits(layout, a_len) || pivot.len() != layout.nrows() {
        Err(LapackError::InvalidLayout)
    } else if !pivots_in_range(pivot, layout.nrows()) {
        Err(LapackError::InvalidValue(INVERSE_PIVOT_ARG))
    } else {
        Ok(InverseCall { n: layout.native().rows, lda: layout.native().lda, uplo: Uplo::Upper, diag: Diag::NonUnit })
    }
}

/// Checks the LU factors and pivots of a square matrix and gives the native
/// arguments that turn them into the inverse (`uplo` and `diag` are unused
/// there and fixed).
pub fn lu_inverse_call(layout: MatrixLayout, a_len: usize, pivot: &[i32]) -> (r: Result<InverseCall, LapackError>)
    ensures
        r == lu_inverse_outcome(layout, a_len, pivot@),
{
    if let Err(e) = layout.validate() {
        return Err(e);
    }
    let n = layout.rows();
    if n != layout.cols() || !layout.fits(a_len) || pivot.len() != n as usize {
        return Err(LapackError::InvalidLayout);
    }
    let mut i: usize = 0;
    while i < pivot.len()
        invariant
            0 <= i <= pivot@.len(),
            pivot@.len() == n,
            n == layout.nrows(),
            square_fits(layout, a_len),
            forall|t: int| 0 <= t < i ==> 1 <= #[trigger] pivot@[t] <= n,
        decreases pivot@.len() - i,
    {
        if pivot[i] < 1 || pivot[i] > n {
            assert(!(1 <= pivot@[i as int] <= layout.nrows()));
            return Err(LapackError::InvalidValue(INVERSE_PIVOT_ARG));
        }
        i = i + 1;
    }
    let v = layout.resolve_for_native();
    Ok(InverseCall { n: v.rows, lda: v.lda, uplo: Uplo::Upper, diag: Diag::NonUnit })
}

pub open spec fn triangular_inverse_outcome(layout: MatrixLayout, a_len: usize, uplo: Uplo, diag: Diag) -> Result<InverseCall, LapackError> {
    if !square_fits(layout, a_len) {
        Err(LapackError::InvalidLayout)
    } else {
        let v = layout.native();
        Ok(InverseCall { n: v.rows, lda: v.lda, uplo: if v.transposed { uplo.flipped() } else { uplo }, diag })
    }
}

/// Checks a triangular matrix and gives the native arguments of its inverse.
pub fn triangular_inverse_call(layout: MatrixLayout, a_len: usize, uplo: Uplo, diag: Diag) -> (r: Result<InverseCall, LapackError>)
    ensures
        r == triangular_inverse_outcome(layout, a_len, uplo, diag),
{
    if let Err(e) = layout.validate() {
        return Err(e);
    }
    if layout.rows() != layout.cols() || !layout.fits(a_len) {
        return Err(LapackError::InvalidLayout);
    }
    let v = layout.resolve_for_native();
    Ok(InverseCall { n: v.rows, lda: v.lda, uplo: uplo.for_native(v.transposed), diag })
}

} // verus!
