//! Eigenproblem of a general square matrix.
use vstd::prelude::*;
use crate::cholesky::square_fits;
use crate::error::LapackError;
use crate::flags::ScalarKind;
use crate::layout::MatrixLayout;

verus! {

/// Native arguments of a general eigenproblem of order `n`. The right
/// eigenvectors of `A` are the conjugated left eigenvectors of `Aᵗ`, so for a
/// row-major buffer the routine computes left eigenvectors (`job_vl`) and
/// the caller conjugates them (`conjugate_vectors`); otherwise it computes
/// right ones (`job_vr`). Eigenvector buffers are `n` x `n`, column-major.
#[derive(Clone, Copy, Debug, PartialEq, Eq, Structural)]
pub struct EigCall {
    pub n: i32,
    pub lda: i32,
    pub job_vl: bool,
    pub job_vr: bool,
    pub ldvl: i32,
    pub ldvr: i32,
    pub vl_len: usize,
    pub vr_len: usize,
    pub eigenvalues_len: usize,
    pub rwork_len: usize,
    pub conjugate_vectors: bool,
}

pub open spec fn eig_outcome(layout: MatrixLayout, a_len: usize, kind: ScalarKind, vectors: bool) -> Result<EigCall, LapackError> {
    if !square_fits(layout, a_len) {
        Err(LapackError::InvalidLayout)
    } else {
        let v = layout.native();
        let n = v.rows as int;
        let job_vl = vectors && v.transposed;
        let job_vr = vectors && !v.transposed;
        if n * n > usize::MAX || 2 * n > usize::MAX {
            Err(LapackError::MemoryAllocation)
        } else {
            Ok(EigCall {
                n: v.rows,
                lda: v.lda,
                job_vl,
                job_vr,
                ldvl: if job_vl && n >= 1 { v.rows } else { 1 },
                ldvr: if job_vr && n >= 1 { v.rows } else { 1 },
                vl_len: if job_vl { (n * n) as usize } else { 0 },
                vr_len: if job_vr { (n * n) as usize } else { 0 },
                eigenvalues_len: n as usize,
                rwork_len: if kind.complex() { (2 * n) as usize } else { 0 },
                conjugate_vectors: job_vl,
            })
        }
    }
}

/// Checks a square buffer and gives the native arguments of its
/// eigenproblem, with right eigenvectors of the caller's matrix when `vectors`.
pub fn eig_call(layout: MatrixLayout, a_len: usize, kind: ScalarKind, vectors: bool) -> (r: Result<EigCall, LapackError>)
    ensures
        r == eig_outcome(layout, a_len, kind, vectors),
{
    if let Err(e) = layout.validate() {
        return Err(e);
    }
    if layout.rows() != layout.cols() || !layout.fits(a_len) {
        return Err(LapackError::InvalidLayout);
    }
    let v = layout.resolve_for_native();
    let n = v.rows as u128;
    assert(n * n <= 0x7fff_ffff * 0x7fff_ffff) by (nonlinear_arith)
        requires
            n <= 0x7fff_ffff,
    ;
    let max = usize::MAX as u128;
    if n * n > max || 2 * n > max {
        return Err(LapackError::MemoryAllocation);
    }
    let job_vl = vectors && v.transposed;
    let job_vr = vectors && !v.transposed;
    Ok(EigCall {
        n: v.rows,
        lda: v.lda,
        job_vl,
        job_vr,
        ldvl: if job_vl && n >= 1 { v.rows } else { 1 },
        ldvr: if job_vr && n >= 1 { v.rows } else { 1 },
        vl_len: if job_vl { (n * n) as usize } else { 0 },
        vr_len: if job_vr { (n * n) as usize } else { 0 },
        eigenvalues_len: n as usize,
        rwork_len: if kind.is_complex() { (2 * n) as usize } else { 0 },
        conjugate_vectors: job_vl,
    })
}

} // verus!
