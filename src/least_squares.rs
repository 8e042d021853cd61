//! Least squares and minimum norm solutions by singular value decomposition.
use vstd::prelude::*;
use crate::error::LapackError;
use crate::layout::MatrixLayout;
use crate::solve::min_int;

verus! {

/// Native arguments for minimising `|A X - B|` with `A` of `m` x `n`: the
/// least squares problem of a transpose is another problem, so a row-major
/// `A` or `B` goes through a packed column-major copy (`crate::copy`). `B`
/// has `max(m, n)` rows; the solution comes back in its first `n`.
#[derive(Clone, Copy, Debug, PartialEq, Eq, Structural)]
pub struct LeastSquaresCall {
    pub m: i32,
    pub n: i32,
    pub nrhs: i32,
    pub lda: i32,
    pub ldb: i32,
    pub copy_a: bool,
    pub copy_b: bool,
    pub singular_values_len: usize,
}

pub open spec fn least_squares_outcome(a: MatrixLayout, a_len: usize, b: MatrixLayout, b_len: usize) -> Result<LeastSquaresCall, LapackError> {
    if !a.wf() || a_len < a.needed_len() || !b.wf() || b_len < b.needed_len()
        || b.nrows() != (if a.nrows() < a.ncols() { a.ncols() } else { a.nrows() }) {
        Err(LapackError::InvalidLayout)
    } else {
        Ok(LeastSquaresCall {
            m: a.nrows() as i32,
            n: a.ncols() as i32,
            nrhs: b.ncols() as i32,
            lda: if a.row_major() { if a.nrows() < 1 { 1 } else { a.nrows() as i32 } } else { a.ld() as i32 },
            ldb: if b.row_major() { if b.nrows() < 1 { 1 } else { b.nrows() as i32 } } else { b.ld() as i32 },
            copy_a: a.row_major(),
            copy_b: b.row_major(),
            singular_values_len: min_int(a.nrows(), a.ncols()) as usize,
        })
    }
}

/// Checks `A` and the block of right-hand sides `B` and gives the native
/// arguments of the least squares solve.
pub fn least_squares_call(a: MatrixLayout, a_len: usize, b: MatrixLayout, b_len: usize) -> (r: Result<LeastSquaresCall, LapackError>)
    ensures
        r == least_squares_outcome(a, a_len, b, b_len),
{
    if let Err(e) = a.validate() {
        return Err(e);
    }
    if let Err(e) = b.validate() {
        return Err(e);
    }
    let (m, n) = (a.rows(), a.cols());
    if !a.fits(a_len) || !b.fits(b_len) || b.rows() != (if m < n { n } else { m }) {
        return Err(LapackError::InvalidLayout);
    }
    Ok(LeastSquaresCall {
        m,
        n,
        nrhs: b.cols(),
        lda: if a.is_row_major() { if m < 1 { 1 } else { m } } else { a.leading_dim() },
        ldb: if b.is_row_major() { if b.rows() < 1 { 1 } else { b.rows() } } else { b.leading_dim() },
        copy_a: a.is_row_major(),
        copy_b: b.is_row_major(),
        singular_values_len: (if m < n { m } else { n }) as usize,
    })
}

} // verus!
