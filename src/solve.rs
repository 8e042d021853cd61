//! LU factorization of a general matrix and solving with its factors.
use vstd::prelude::*;
use crate::buffer::OutputBuffer;
use crate::error::{status_outcome, LapackError, PositiveStatus};
use crate::flags::{compose, native_op, NativeOp, ScalarKind, Transpose};
use crate::layout::MatrixLayout;
use crate::Pivot;

verus! {

pub open spec fn min_int(a: int, b: int) -> int {
    if a < b { a } else { b }
}

/// Native arguments of an LU factorization of an `m` x `n` column-major view
/// with leading dimension `lda`; the pivot sequence has `pivot_len` entries.
#[derive(Clone, Copy, Debug, PartialEq, Eq, Structural)]
pub struct LuCall {
    pub m: i32,
    pub n: i32,
    pub lda: i32,
    pub pivot_len: usize,
}

/// The factorization runs on the native view of the buffer as it stands; for
/// a row-major buffer that is the transpose, which `solve_call` accounts for.
pub open spec fn lu_outcome(layout: MatrixLayout, a_len: usize) -> Result<LuCall, LapackError> {
    if !layout.wf() || a_len < layout.needed_len() {
        Err(LapackError::InvalidLayout)
    } else {
        Ok(LuCall {
            m: layout.native().rows,
            n: layout.native().cols,
            lda: layout.native().lda,
            pivot_len: min_int(layout.nrows(), layout.ncols()) as usize,
        })
    }
}

/// Checks a buffer of `a_len` elements against `layout` and gives the native
/// arguments of its LU factorization.
pub fn lu_call(layout: MatrixLayout, a_len: usize) -> (r: Result<LuCall, LapackError>)
    ensures
        r == lu_outcome(layout, a_len),
{
    let layout = match layout.validate() {
        Ok(l) => l,
        Err(e) => return Err(e),
    };
    if !layout.fits(a_len) {
        return Err(LapackError::InvalidLayout);
    }
    let v = layout.resolve_for_native();
    let k = if layout.rows() < layout.cols() { layout.rows() } else { layout.cols() };
    Ok(LuCall { m: v.rows, n: v.cols, lda: v.lda, pivot_len: k as usize })
}

/// The pivot sequence once the factorization returned `status`. A singular
/// pivot is reported with its 1-based index; the factors stay in the caller's
/// buffer.
pub fn finish_lu(pivot: OutputBuffer<i32>, status: i32) -> (r: Result<Pivot, LapackError>)
    ensures
        status == 0 ==> r is Ok && r->Ok_0@ == pivot.contents(),
        status > 0 ==> r == Err::<Vec<i32>, LapackError>(LapackError::SingularMatrix(status as u32)),
        status < 0 ==> r == Err::<Vec<i32>, LapackError>(LapackError::InvalidValue((-status) as u32)),
{
    pivot.into_filled(status, PositiveStatus::Singular)
}

/// Every pivot names a row of an `n` x `n` matrix, 1-based.
pub open spec fn pivots_in_range(pivot: Seq<i32>, n: int) -> bool {
    forall|i: int| 0 <= i < pivot.len() ==> 1 <= #[trigger] pivot[i] <= n
}

/// Position of the pivot argument of the native solve routine.
pub const PIVOT_ARG: u32 = 6;

/// Native arguments for solving `op(A) x = b` with the factors of a square
/// `n` x `n` matrix, one right-hand side of `n` elements.
#[derive(Clone, Copy, Debug, PartialEq, Eq, Structural)]
pub struct SolveCall {
    pub op: NativeOp,
    pub n: i32,
    pub lda: i32,
    pub nrhs: i32,
    pub ldb: i32,
}

pub open spec fn solve_outcome(
    layout: MatrixLayout,
    request: Transpose,
    kind: ScalarKind,
    a_len: usize,
    pivot: Seq<i32>,
    b_len: usize,
) -> Result<SolveCall, LapackError> {
    if !layout.wf() || layout.nrows() != layout.ncols() || a_len < layout.needed_len()
        || b_len != layout.nrows() || pivot.len() != layout.nrows() {
        Err(LapackError::InvalidLayout)
    } else if !pivots_in_range(pivot, layout.nrows()) {
        Err(LapackError::InvalidValue(PIVOT_ARG))
    } else {
        Ok(SolveCall {
            op: native_op(layout.native().transposed, request, kind),
            n: layout.nrows() as i32,
            lda: layout.ld() as i32,
            nrhs: 1,
            ldb: if layout.nrows() < 1 { 1 } else { layout.nrows() as i32 },
        })
    }
}

/// Checks the factored buffer, its pivots and the right-hand side, and gives
/// the native arguments that apply `request` to the caller's matrix.
pub fn solve_call(
    layout: MatrixLayout,
    request: Transpose,
    kind: ScalarKind,
    a_len: usize,
    pivot: &[i32],
    b_len: usize,
) -> (r: Result<SolveCall, LapackError>)
    ensures
        r == solve_outcome(layout, request, kind, a_len, pivot@, b_len),
{
    if let Err(e) = layout.validate() {
        return Err(e);
    }
    let n = layout.rows();
    if n != layout.cols() || !layout.fits(a_len) || b_len != n as usize || pivot.len() != n as usize {
        return Err(LapackError::InvalidLayout);
    }
    let mut i: usize = 0;
    while i < pivot.len()
        invariant
            0 <= i <= pivot@.len(),
            pivot@.len() == n,
            n == layout.nrows(),
            layout.wf(),
            layout.nrows() == layout.ncols(),
            a_len >= layout.needed_len(),
            b_len == n,
            forall|t: int| 0 <= t < i ==> 1 <= #[trigger] pivot@[t] <= n,
        decreases pivot@.len() - i,
    {
        if pivot[i] < 1 || pivot[i] > n {
            assert(!(1 <= pivot@[i as int] <= layout.nrows()));
            return Err(LapackError::InvalidValue(PIVOT_ARG));
        }
        i = i + 1;
    }
    let v = layout.resolve_for_native();
    Ok(SolveCall {
        op: compose(v.transposed, request, kind),
        n,
        lda: layout.leading_dim(),
        nrhs: 1,
        ldb: if n < 1 { 1 } else { n },
    })
}

} // verus!
