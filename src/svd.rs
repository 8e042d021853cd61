//! Singular value decomposition: native arguments for a layout, and where the
//! caller's factors stand in the native output.
use vstd::prelude::*;
use crate::error::LapackError;
use crate::flags::ScalarKind;
use crate::layout::MatrixLayout;
use crate::solve::min_int;

verus! {

/// Native arguments of an SVD of the `m` x `n` view with leading dimension
/// `lda`: whether to compute the left (`job_u`) and right (`job_vt`) factors,
/// their leading dimensions and buffer lengths, the count `k` of singular
/// values, and the real workspace that complex kinds need.
/// When `swapped` holds the view is the transpose of the caller's matrix, so
/// the native right factor is the caller's `U` and the native left factor the
/// caller's `Vᵗ`.
#[derive(Clone, Copy, Debug, PartialEq, Eq, Structural)]
pub struct SvdCall {
    pub m: i32,
    pub n: i32,
    pub lda: i32,
    pub k: i32,
    pub job_u: bool,
    pub job_vt: bool,
    pub ldu: i32,
    pub ldvt: i32,
    pub u_len: usize,
    pub vt_len: usize,
    pub rwork_len: usize,
    pub swapped: bool,
}

pub open spec fn at_least_one(x: int) -> int {
    if x < 1 { 1 } else { x }
}

pub open spec fn svd_outcome(layout: MatrixLayout, a_len: usize, kind: ScalarKind, calc_u: bool, calc_vt: bool) -> Result<SvdCall, LapackError> {
    if !layout.wf() || a_len < layout.needed_len() {
        Err(LapackError::InvalidLayout)
    } else {
        let v = layout.native();
        let k = min_int(v.rows as int, v.cols as int);
        let job_u = if v.transposed { calc_vt } else { calc_u };
        let job_vt = if v.transposed { calc_u } else { calc_vt };
        let u_len = if job_u { v.rows * v.rows } else { 0 };
        let vt_len = if job_vt { v.cols * v.cols } else { 0 };
        let rwork_len = if kind.complex() { 5 * k } else { 0 };
        if u_len > usize::MAX || vt_len > usize::MAX || rwork_len > usize::MAX {
            Err(LapackError::MemoryAllocation)
        } else {
            Ok(SvdCall {
                m: v.rows,
                n: v.cols,
                lda: v.lda,
                k: k as i32,
                job_u,
                job_vt,
                ldu: if job_u { at_least_one(v.rows as int) as i32 } else { 1 },
                ldvt: if job_vt { at_least_one(v.cols as int) as i32 } else { 1 },
                u_len: u_len as usize,
                vt_len: vt_len as usize,
                rwork_len: rwork_len as usize,
                swapped: v.transposed,
            })
        }
    }
}

fn square_len(d: i32) -> (r: Option<usize>)
    requires
        d >= 0,
    ensures
        d * d <= usize::MAX ==> r == Some((d * d) as usize),
        d * d > usize::MAX ==> r is None,
{
    (d as usize).checked_mul(d as usize)
}

/// Checks a buffer of `a_len` elements against `layout` and gives the native
/// SVD arguments that yield the caller's `U` when `calc_u` holds and the
/// caller's `Vᵗ` when `calc_vt` holds.
pub fn svd_call(layout: MatrixLayout, a_len: usize, kind: ScalarKind, calc_u: bool, calc_vt: bool) -> (r: Result<SvdCall, LapackError>)
    ensures
        r == svd_outcome(layout, a_len, kind, calc_u, calc_vt),
{
    if let Err(e) = layout.validate() {
        return Err(e);
    }
    if !layout.fits(a_len) {
        return Err(LapackError::InvalidLayout);
    }
    let v = layout.resolve_for_native();
    let k = if v.rows < v.cols { v.rows } else { v.cols };
    let job_u = if v.transposed { calc_vt } else { calc_u };
    let job_vt = if v.transposed { calc_u } else { calc_vt };
    let u_len = if job_u { square_len(v.rows) } else { Some(0) };
    let vt_len = if job_vt { square_len(v.cols) } else { Some(0) };
    let rwork_len = if kind.is_complex() { (k as usize).checked_mul(5) } else { Some(0) };
    match (u_len, vt_len, rwork_len) {
        (Some(u_len), Some(vt_len), Some(rwork_len)) => Ok(SvdCall {
            m: v.rows,
            n: v.cols,
            lda: v.lda,
            k,
            job_u,
            job_vt,
            ldu: if job_u { if v.rows < 1 { 1 } else { v.rows } } else { 1 },
            ldvt: if job_vt { if v.cols < 1 { 1 } else { v.cols } } else { 1 },
            u_len,
            vt_len,
            rwork_len,
            swapped: v.transposed,
        }),
        _ => Err(LapackError::MemoryAllocation),
    }
}

/// The layout in which the caller reads a square factor of order `d` from
/// the native buffer that holds it: packed, in the caller's order.
pub fn factor_layout(layout: MatrixLayout, d: i32) -> (r: MatrixLayout)
    requires
        d >= 0,
    ensures
        r.wf(),
        r.row_major() == layout.row_major(),
        r.nrows() == d,
        r.ncols() == d,
        r.ld() == at_least_one(d as int),
{
    layout.packed_like(d, d)
}

/// The caller's `(U, Vᵗ)` from the native left and right factor buffers:
/// swapped when the native view is the transpose of the caller's matrix.
pub fn caller_factors<T>(call: &SvdCall, native_u: Vec<T>, native_vt: Vec<T>) -> (r: (Vec<T>, Vec<T>))
    ensures
        call.swapped ==> r.0 == native_vt && r.1 == native_u,
        !call.swapped ==> r.0 == native_u && r.1 == native_vt,
{
    if call.swapped { (native_vt, native_u) } else { (native_u, native_vt) }
}

} // verus!
