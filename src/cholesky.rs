//! Cholesky factorization of a symmetric or Hermitian positive definite
//! matrix, and triangular solves.
use vstd::prelude::*;
use crate::error::LapackError;
use crate::flags::{compose, native_op, NativeOp, ScalarKind, Transpose, Uplo};
use crate::layout::MatrixLayout;

verus! {

/// Native arguments of a Cholesky factorization of order `n`, or of a solve
/// with its factor: the triangle named to the routine, for a solve the
/// right-hand side's count and leading dimension, and whether that solve
/// needs a conjugation pass over the right-hand side before and after.
#[derive(Clone, Copy, Debug, PartialEq, Eq, Structural)]
pub struct CholeskyCall {
    pub n: i32,
    pub lda: i32,
    pub uplo: Uplo,
    pub nrhs: i32,
    pub ldb: i32,
    pub conjugate_pass: bool,
}

pub open spec fn square_fits(layout: MatrixLayout, a_len: usize) -> bool {
    layout.wf() && layout.nrows() == layout.ncols() && a_len >= layout.needed_len()
}

/// A row-major buffer is handed over as it is, with the other triangle named:
/// the routine then sees the transpose, which for a Hermitian matrix is its
/// conjugate, so solving with it asks for the conjugate right-hand side.
pub open spec fn cholesky_outcome(layout: MatrixLayout, a_len: usize, kind: ScalarKind, uplo: Uplo, b_len: usize) -> Result<CholeskyCall, LapackError> {
    if !square_fits(layout, a_len) || b_len != layout.nrows() {
        Err(LapackError::InvalidLayout)
    } else {
        let v = layout.native();
        Ok(CholeskyCall {
            n: v.rows,
            lda: v.lda,
            uplo: if v.transposed { uplo.flipped() } else { uplo },
            nrhs: 1,
            ldb: if v.rows < 1 { 1 } else { v.rows },
            conjugate_pass: v.transposed && kind.complex(),
        })
    }
}

/// Checks a square buffer and a right-hand side of `b_len` elements (pass
/// the order itself when only factoring) and gives the native arguments.
pub fn cholesky_call(layout: MatrixLayout, a_len: usize, kind: ScalarKind, uplo: Uplo, b_len: usize) -> (r: Result<CholeskyCall, LapackError>)
    ensures
        r == cholesky_outcome(layout, a_len, kind, uplo, b_len),
{
    if let Err(e) = layout.validate() {
        return Err(e);
    }
    if layout.rows() != layout.cols() || !layout.fits(a_len) || b_len != layout.rows() as usize {
        return Err(LapackError::InvalidLayout);
    }
    let v = layout.resolve_for_native();
    Ok(CholeskyCall {
        n: v.rows,
        lda: v.lda,
        uplo: uplo.for_native(v.transposed),
        nrhs: 1,
        ldb: if v.rows < 1 { 1 } else { v.rows },
        conjugate_pass: v.transposed && kind.is_complex(),
    })
}

/// Whether a triangular matrix has an implicit unit diagonal.
#[derive(Clone, Copy, Debug, PartialEq, Eq, Structural)]
pub enum Diag {
    Unit,
    NonUnit,
}

impl Diag {
    /// The character the native routines expect.
    pub fn code(&self) -> (r: char)
        ensures
            *self is Unit ==> r == 'U',
            *self is NonUnit ==> r == 'N',
    {
        match *self {
            Diag::Unit => 'U',
            Diag::NonUnit => 'N',
        }
    }
}

/// Native arguments for solving `op(A) X = B` with a triangular `A` of order
/// `n` and `nrhs` right-hand sides, the columns of `B`. The routine takes `B`
/// column-major: when `copy_b` holds, `B` goes through a packed column-major
/// copy (`crate::copy`) and the solution is copied back.
#[derive(Clone, Copy, Debug, PartialEq, Eq, Structural)]
pub struct TriangularCall {
    pub n: i32,
    pub lda: i32,
    pub uplo: Uplo,
    pub op: NativeOp,
    pub diag: Diag,
    pub nrhs: i32,
    pub ldb: i32,
    pub copy_b: bool,
}

/// The triangle of the caller's matrix is the other triangle of the native
/// view of a row-major buffer, and the requested operator composes with that
/// view's transpose.
pub open spec fn triangular_outcome(
    layout: MatrixLayout,
    a_len: usize,
    uplo: Uplo,
    request: Transpose,
    diag: Diag,
    kind: ScalarKind,
    b: MatrixLayout,
    b_len: usize,
) -> Result<TriangularCall, LapackError> {
    if !square_fits(layout, a_len) || !b.wf() || b.nrows() != layout.nrows() || b_len < b.needed_len() {
        Err(LapackError::InvalidLayout)
    } else {
        let v = layout.native();
        Ok(TriangularCall {
            n: v.rows,
            lda: v.lda,
            uplo: if v.transposed { uplo.flipped() } else { uplo },
            op: native_op(v.transposed, request, kind),
            diag,
            nrhs: b.ncols() as i32,
            ldb: if b.row_major() { if v.rows < 1 { 1 } else { v.rows } } else { b.ld() as i32 },
            copy_b: b.row_major(),
        })
    }
}

/// Checks a triangular matrix and a block of right-hand sides in either
/// order and gives the native arguments of the solve.
pub fn triangular_call(
    layout: MatrixLayout,
    a_len: usize,
    uplo: Uplo,
    request: Transpose,
    diag: Diag,
    kind: ScalarKind,
    b: MatrixLayout,
    b_len: usize,
) -> (r: Result<TriangularCall, LapackError>)
    ensures
        r == triangular_outcome(layout, a_len, uplo, request, diag, kind, b, b_len),
{
    if let Err(e) = layout.validate() {
        return Err(e);
    }
    if let Err(e) = b.validate() {
        return Err(e);
    }
    if layout.rows() != layout.cols() || !layout.fits(a_len) || b.rows() != layout.rows() || !b.fits(b_len) {
        return Err(LapackError::InvalidLayout);
    }
    let v = layout.resolve_for_native();
    Ok(TriangularCall {
        n: v.rows,
        lda: v.lda,
        uplo: uplo.for_native(v.transposed),
        op: compose(v.transposed, request, kind),
        diag,
        nrhs: b.cols(),
        ldb: if b.is_row_major() { if v.rows < 1 { 1 } else { v.rows } } else { b.leading_dim() },
        copy_b: b.is_row_major(),
    })
}

} // verus!
