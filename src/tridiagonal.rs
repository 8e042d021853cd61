//! Tridiagonal matrices, given by their three diagonals: LU factorization and
//! solve.
use vstd::prelude::*;
use crate::error::LapackError;
use crate::flags::Transpose;
use crate::layout::MatrixLayout;
use crate::solve::pivots_in_range;

verus! {

/// Native arguments of the factorization of a tridiagonal matrix of order
/// `n`: the length of the second superdiagonal it fills and of the pivots.
#[derive(Clone, Copy, Debug, PartialEq, Eq, Structural)]
pub struct TridiagonalCall {
    pub n: i32,
    pub du2_len: usize,
    pub pivot_len: usize,
}

pub open spec fn tridiagonal_outcome(dl_len: usize, d_len: usize, du_len: usize) -> Result<TridiagonalCall, LapackError> {
    if d_len > 0x7fff_ffff || (d_len == 0 && (dl_len != 0 || du_len != 0))
        || (d_len > 0 && (dl_len != d_len - 1 || du_len != d_len - 1)) {
        Err(LapackError::InvalidLayout)
    } else {
        Ok(TridiagonalCall {
            n: d_len as i32,
            du2_len: if d_len >= 2 { (d_len - 2) as usize } else { 0 },
            pivot_len: d_len,
        })
    }
}

/// Checks the lengths of the sub-, main and superdiagonal.
pub fn tridiagonal_call(dl_len: usize, d_len: usize, du_len: usize) -> (r: Result<TridiagonalCall, LapackError>)
    ensures
        r == tridiagonal_outcome(dl_len, d_len, du_len),
{
    if d_len > 0x7fff_ffff || (d_len == 0 && (dl_len != 0 || du_len != 0))
        || (d_len > 0 && (dl_len != d_len - 1 || du_len != d_len - 1)) {
        return Err(LapackError::InvalidLayout);
    }
    Ok(TridiagonalCall { n: d_len as i32, du2_len: if d_len >= 2 { d_len - 2 } else { 0 }, pivot_len: d_len })
}

/// Native arguments of a solve with tridiagonal factors: the operator as
/// requested (the diagonals carry no layout), and the block of right-hand
/// sides, which goes through a column-major copy when `copy_b` holds.
#[derive(Clone, Copy, Debug, PartialEq, Eq, Structural)]
pub struct TridiagonalSolveCall {
    pub trans: Transpose,
    pub n: i32,
    pub nrhs: i32,
    pub ldb: i32,
    pub copy_b: bool,
}

/// Position of the pivot argument of the native tridiagonal solve.
pub const TRIDIAGONAL_PIVOT_ARG: u32 = 8;

pub open spec fn tridiagonal_solve_outcome(n: i32, request: Transpose, pivot: Seq<i32>, b: MatrixLayout, b_len: usize) -> Result<TridiagonalSolveCall, LapackError> {
    if !b.wf() || b.nrows() != n || b_len < b.needed_len() || pivot.len() != n {
        Err(LapackError::InvalidLayout)
    } else if !pivots_in_range(pivot, n as int) {
        Err(LapackError::InvalidValue(TRIDIAGONAL_PIVOT_ARG))
    } else {
        Ok(TridiagonalSolveCall {
            trans: request,
            n,
            nrhs: b.ncols() as i32,
            ldb: if b.row_major() { if n < 1 { 1 } else { n } } else { b.ld() as i32 },
            copy_b: b.row_major(),
        })
    }
}

/// Checks the pivots of a factored tridiagonal matrix of order `n` and a
/// block of right-hand sides laid out by `b`, and gives the native arguments.
pub fn tridiagonal_solve_call(n: i32, request: Transpose, pivot: &[i32], b: MatrixLayout, b_len: usize) -> (r: Result<TridiagonalSolveCall, LapackError>)
    ensures
        r == tridiagonal_solve_outcome(n, request, pivot@, b, b_len),
{
    if let Err(e) = b.validate() {
        return Err(e);
    }
    if b.rows() != n || !b.fits(b_len) || pivot.len() != n as usize {
        return Err(LapackError::InvalidLayout);
    }
    let mut i: usize = 0;
    while i < pivot.len()
        invariant
            0 <= i <= pivot@.len(),
            pivot@.len() == n,
            b.wf(),
            b.nrows() == n,
            b_len >= b.needed_len(),
            forall|t: int| 0 <= t < i ==> 1 <= #[trigger] pivot@[t] <= n,
        decreases pivot@.len() - i,
    {
        if pivot[i] < 1 || pivot[i] > n {
            assert(!(1 <= pivot@[i as int] <= n));
            return Err(LapackError::InvalidValue(TRIDIAGONAL_PIVOT_ARG));
        }
        i = i + 1;
    }
    Ok(TridiagonalSolveCall {
        trans: request,
        n,
        nrhs: b.cols(),
        ldb: if b.is_row_major() { if n < 1 { 1 } else { n } } else { b.leading_dim() },
        copy_b: b.is_row_major(),
    })
}

} // verus!
