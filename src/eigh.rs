//! Eigenproblem of a symmetric or Hermitian matrix.
use vstd::prelude::*;
use crate::error::LapackError;
use crate::flags::{ScalarKind, Uplo};
use crate::layout::MatrixLayout;
use crate::svd::at_least_one;

verus! {

/// Native arguments of a symmetric/Hermitian eigenproblem of order `n`: the
/// triangle to read, whether to compute eigenvectors in place, the count of
/// eigenvalues, the real workspace complex kinds need, and whether the
/// eigenvectors must be conjugated afterwards (a Hermitian matrix in
/// row-major order reaches the native routine as its conjugate).
#[derive(Clone, Copy, Debug, PartialEq, Eq, Structural)]
pub struct EighCall {
    pub n: i32,
    pub lda: i32,
    pub uplo: Uplo,
    pub vectors: bool,
    pub eigenvalues_len: usize,
    pub rwork_len: usize,
    pub conjugate_vectors: bool,
}

pub open spec fn eigh_outcome(layout: MatrixLayout, a_len: usize, kind: ScalarKind, uplo: Uplo, vectors: bool) -> Result<EighCall, LapackError> {
    if !layout.wf() || layout.nrows() != layout.ncols() || a_len < layout.needed_len() {
        Err(LapackError::InvalidLayout)
    } else {
        let v = layout.native();
        Ok(EighCall {
            n: v.rows,
            lda: v.lda,
            uplo: if v.transposed { uplo.flipped() } else { uplo },
            vectors,
            eigenvalues_len: v.rows as usize,
            rwork_len: if kind.complex() { at_least_one(3 * v.rows - 2) as usize } else { 0 },
            conjugate_vectors: v.transposed && kind.complex() && vectors,
        })
    }
}

/// Checks a square buffer against `layout` and gives the native arguments
/// of its eigenproblem, with `uplo` naming the caller's triangle.
pub fn eigh_call(layout: MatrixLayout, a_len: usize, kind: ScalarKind, uplo: Uplo, vectors: bool) -> (r: Result<EighCall, LapackError>)
    ensures
        r == eigh_outcome(layout, a_len, kind, uplo, vectors),
{
    if let Err(e) = layout.validate() {
        return Err(e);
    }
    if layout.rows() != layout.cols() || !layout.fits(a_len) {
        return Err(LapackError::InvalidLayout);
    }
    let v = layout.resolve_for_native();
    let complex = kind.is_complex();
    let rwork: i64 = 3 * v.rows as i64 - 2;
    Ok(EighCall {
        n: v.rows,
        lda: v.lda,
        uplo: uplo.for_native(v.transposed),
        vectors,
        eigenvalues_len: v.rows as usize,
        rwork_len: if complex { if rwork < 1 { 1 } else { rwork as usize } } else { 0 },
        conjugate_vectors: v.transposed && complex && vectors,
    })
}

/// Where the eigenvectors stand after the call: as the columns of the native
/// column-major view of the buffer. A column-major caller reads them in its
/// own layout; a row-major caller reads them through the transposed layout.
pub fn eigenvector_layout(layout: MatrixLayout) -> (r: MatrixLayout)
    requires
        layout.wf(),
        layout.nrows() == layout.ncols(),
    ensures
        r.wf(),
        !r.row_major(),
        r.nrows() == layout.nrows(),
        r.ncols() == layout.nrows(),
        r.ld() == layout.native().lda,
        r == if layout.row_major() { layout.transposed() } else { layout },
{
    if layout.is_row_major() { layout.t() } else { layout }
}

} // verus!
