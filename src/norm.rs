//! Operator norms and reciprocal condition numbers.
use vstd::prelude::*;
use crate::error::LapackError;
use crate::flags::{NormType, ScalarKind};
use crate::layout::MatrixLayout;

verus! {

/// Native arguments of a norm of the `m` x `n` view: the norm to ask of the
/// view (of its transpose for a row-major buffer) and the workspace length.
#[derive(Clone, Copy, Debug, PartialEq, Eq, Structural)]
pub struct NormCall {
    pub norm: NormType,
    pub m: i32,
    pub n: i32,
    pub lda: i32,
    pub work_len: usize,
}

pub open spec fn norm_outcome(layout: MatrixLayout, a_len: usize, norm: NormType) -> Result<NormCall, LapackError> {
    if !layout.wf() || a_len < layout.needed_len() {
        Err(LapackError::InvalidLayout)
    } else {
        let v = layout.native();
        let t = if v.transposed { norm.of_transpose() } else { norm };
        Ok(NormCall {
            norm: t,
            m: v.rows,
            n: v.cols,
            lda: v.lda,
            work_len: if t is Infinity { v.rows as usize } else { 0 },
        })
    }
}

/// Checks a buffer against `layout` and gives the native arguments that
/// compute `norm` of the caller's matrix.
pub fn norm_call(layout: MatrixLayout, a_len: usize, norm: NormType) -> (r: Result<NormCall, LapackError>)
    ensures
        r == norm_outcome(layout, a_len, norm),
{
    if let Err(e) = layout.validate() {
        return Err(e);
    }
    if !layout.fits(a_len) {
        return Err(LapackError::InvalidLayout);
    }
    let v = layout.resolve_for_native();
    let t = if v.transposed { norm.transpose() } else { norm };
    Ok(NormCall {
        norm: t,
        m: v.rows,
        n: v.cols,
        lda: v.lda,
        work_len: if matches!(t, NormType::Infinity) { v.rows as usize } else { 0 },
    })
}

/// Native arguments of a reciprocal condition number estimate from the LU
/// factors of a square matrix of order `n`, given the norm that the matrix
/// had before factoring: the norm to name, and the fixed workspace lengths (a scalar one,
/// and an integer one for real kinds or a real one for complex kinds).
#[derive(Clone, Copy, Debug, PartialEq, Eq, Structural)]
pub struct RcondCall {
    pub norm: NormType,
    pub n: i32,
    pub lda: i32,
    pub work_len: usize,
    pub iwork_len: usize,
    pub rwork_len: usize,
}

/// Position of the norm argument of the native condition estimate, which
/// takes the one or the infinity norm only.
pub const RCOND_NORM_ARG: u32 = 1;

pub open spec fn rcond_outcome(layout: MatrixLayout, a_len: usize, kind: ScalarKind, norm: NormType) -> Result<RcondCall, LapackError> {
    if !layout.wf() || layout.nrows() != layout.ncols() || a_len < layout.needed_len() {
        Err(LapackError::InvalidLayout)
    } else if norm is Frobenius {
        Err(LapackError::InvalidValue(RCOND_NORM_ARG))
    } else if 4 * layout.native().rows > usize::MAX {
        Err(LapackError::MemoryAllocation)
    } else {
        let v = layout.native();
        let n = v.rows as int;
        Ok(RcondCall {
            norm: if v.transposed { norm.of_transpose() } else { norm },
            n: v.rows,
            lda: v.lda,
            work_len: (if kind.complex() { 2 * n } else { 4 * n }) as usize,
            iwork_len: (if kind.complex() { 0 } else { n }) as usize,
            rwork_len: (if kind.complex() { 2 * n } else { 0 }) as usize,
        })
    }
}

/// Checks the factored square buffer against `layout` and gives the native
/// arguments of its condition estimate in the one or infinity norm.
pub fn rcond_call(layout: MatrixLayout, a_len: usize, kind: ScalarKind, norm: NormType) -> (r: Result<RcondCall, LapackError>)
    ensures
        r == rcond_outcome(layout, a_len, kind, norm),
{
    if let Err(e) = layout.validate() {
        return Err(e);
    }
    if layout.rows() != layout.cols() || !layout.fits(a_len) {
        return Err(LapackError::InvalidLayout);
    }
    if matches!(norm, NormType::Frobenius) {
        return Err(LapackError::InvalidValue(RCOND_NORM_ARG));
    }
    let v = layout.resolve_for_native();
    let n = v.rows as usize;
    let complex = kind.is_complex();
    if (v.rows as usize).checked_mul(4).is_none() {
        return Err(LapackError::MemoryAllocation);
    }
    Ok(RcondCall {
        norm: if v.transposed { norm.transpose() } else { norm },
        n: v.rows,
        lda: v.lda,
        work_len: if complex { 2 * n } else { 4 * n },
        iwork_len: if complex { 0 } else { n },
        rwork_len: if complex { 2 * n } else { 0 },
    })
}

} // verus!
