//! Symmetric or Hermitian indefinite matrices: diagonal pivoting
//! (Bunch-Kaufman) factorization, solve and inverse.
use vstd::prelude::*;
use crate::cholesky::square_fits;
use crate::error::LapackError;
use crate::flags::{ScalarKind, Uplo};
use crate::layout::MatrixLayout;

verus! {

/// Native arguments of a diagonal pivoting factorization of order `n`, or of
/// a solve or inverse with it: the triangle named, the pivot count, the
/// right-hand side's count and leading dimension, and whether a solve asks for
/// a conjugation pass over the right-hand side (a Hermitian matrix in
/// row-major order reaches the routine as its conjugate; so does its inverse,
/// which the pass then turns back).
#[derive(Clone, Copy, Debug, PartialEq, Eq, Structural)]
pub struct BkCall {
    pub n: i32,
    pub lda: i32,
    pub uplo: Uplo,
    pub pivot_len: usize,
    pub nrhs: i32,
    pub ldb: i32,
    pub conjugate_pass: bool,
}

/// Each entry names a row, 1-based; a negative one marks a 2 x 2 block.
pub open spec fn bk_pivots_in_range(pivot: Seq<i32>, n: int) -> bool {
    forall|i: int| 0 <= i < pivot.len() ==> (1 <= #[trigger] pivot[i] <= n || -n <= pivot[i] <= -1)
}

/// Position of the pivot argument of the native solve with these factors.
pub const BK_PIVOT_ARG: u32 = 6;

pub open spec fn bk_outcome(layout: MatrixLayout, a_len: usize, kind: ScalarKind, uplo: Uplo, pivot: Option<Seq<i32>>, b_len: usize) -> Result<BkCall, LapackError> {
    if !square_fits(layout, a_len) || b_len != layout.nrows() || (pivot is Some && pivot->Some_0.len() != layout.nrows()) {
        Err(LapackError::InvalidLayout)
    } else if pivot is Some && !bk_pivots_in_range(pivot->Some_0, layout.nrows()) {
        Err(LapackError::InvalidValue(BK_PIVOT_ARG))
    } else {
        let v = layout.native();
        Ok(BkCall {
            n: v.rows,
            lda: v.lda,
            uplo: if v.transposed { uplo.flipped() } else { uplo },
            pivot_len: v.rows as usize,
            nrhs: 1,
            ldb: if v.rows < 1 { 1 } else { v.rows },
            conjugate_pass: v.transposed && kind.complex(),
        })
    }
}

/// Checks a square buffer, the pivots of an earlier factorization when given
/// (for a solve or inverse), and a right-hand side of `b_len` elements (the
/// order itself when there is none), and gives the native arguments.
pub fn bk_call(layout: MatrixLayout, a_len: usize, kind: ScalarKind, uplo: Uplo, pivot: Option<&[i32]>, b_len: usize) -> (r: Result<BkCall, LapackError>)
    ensures
        r == bk_outcome(layout, a_len, kind, uplo, match pivot { Some(p) => Some(p@), None => None }, b_len),
{
    if let Err(e) = layout.validate() {
        return Err(e);
    }
    let n = layout.rows();
    if n != layout.cols() || !layout.fits(a_len) || b_len != n as usize {
        return Err(LapackError::InvalidLayout);
    }
    if let Some(p) = pivot {
        if p.len() != n as usize {
            return Err(LapackError::InvalidLayout);
        }
        let mut i: usize = 0;
        while i < p.len()
            invariant
                0 <= i <= p@.len(),
                p@.len() == n,
                n == layout.nrows(),
                square_fits(layout, a_len),
                b_len == n,
                pivot == Some(p),
                forall|t: int| 0 <= t < i ==> (1 <= #[trigger] p@[t] <= n || -n <= p@[t] <= -1),
            decreases p@.len() - i,
        {
            let x = p[i];
            if !((1 <= x && x <= n) || (-n <= x && x <= -1)) {
                assert(!(1 <= p@[i as int] <= n || -n <= p@[i as int] <= -1));
                return Err(LapackError::InvalidValue(BK_PIVOT_ARG));
            }
            i = i + 1;
        }
    }
    let v = layout.resolve_for_native();
    Ok(BkCall {
        n: v.rows,
        lda: v.lda,
        uplo: uplo.for_native(v.transposed),
        pivot_len: v.rows as usize,
        nrhs: 1,
        ldb: if v.rows < 1 { 1 } else { v.rows },
        conjugate_pass: v.transposed && kind.is_complex(),
    })
}

} // verus!
