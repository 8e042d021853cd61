//! Singular value decomposition by divide and conquer.
use vstd::prelude::*;
use crate::error::LapackError;
use crate::flags::ScalarKind;
use crate::layout::MatrixLayout;
use crate::solve::min_int;
use crate::svd::at_least_one;

verus! {

/// Which singular vectors to compute: all of them, the first `min(m, n)`,
/// or none.
#[derive(Clone, Copy, Debug, PartialEq, Eq, Structural)]
pub enum JobSvd {
    All,
    Thin,
    Skip,
}

impl JobSvd {
    /// The character the native routines expect.
    pub fn code(&self) -> (r: char)
        ensures
            *self is All ==> r == 'A',
            *self is Thin ==> r == 'S',
            *self is Skip ==> r == 'N',
    {
        match *self {
            JobSvd::All => 'A',
            JobSvd::Thin => 'S',
            JobSvd::Skip => 'N',
        }
    }
}

/// Native arguments of a divide and conquer SVD of the `m` x `n` view: the
/// native left factor is `m` x `u_cols` with leading dimension `ldu`, the
/// native right factor `vt_rows` x `n` with `ldvt`, and the workspaces that
/// the native routine fixes by formula. As for `crate::svd`, `swapped` means
/// the native right factor is the caller's `U` and the left one its `Vᵗ`.
#[derive(Clone, Copy, Debug, PartialEq, Eq, Structural)]
pub struct SvddcCall {
    pub m: i32,
    pub n: i32,
    pub lda: i32,
    pub k: i32,
    pub job: JobSvd,
    pub u_cols: i32,
    pub vt_rows: i32,
    pub ldu: i32,
    pub ldvt: i32,
    pub u_len: usize,
    pub vt_len: usize,
    pub rwork_len: usize,
    pub iwork_len: usize,
    pub swapped: bool,
}

pub open spec fn svddc_rwork(kind: ScalarKind, job: JobSvd, m: int, n: int, k: int) -> int {
    if !kind.complex() {
        0
    } else if job is Skip {
        7 * k
    } else {
        let mx = if m < n { n } else { m };
        let a = 5 * (k * k) + 5 * k;
        let b = 2 * (mx * k) + 2 * (k * k) + k;
        if a < b { b } else { a }
    }
}

pub open spec fn svddc_outcome(layout: MatrixLayout, a_len: usize, kind: ScalarKind, job: JobSvd) -> Result<SvddcCall, LapackError> {
    if !layout.wf() || a_len < layout.needed_len() {
        Err(LapackError::InvalidLayout)
    } else {
        let v = layout.native();
        let (m, n) = (v.rows as int, v.cols as int);
        let k = min_int(m, n);
        let u_cols = match job { JobSvd::All => m, JobSvd::Thin => k, JobSvd::Skip => 0 };
        let vt_rows = match job { JobSvd::All => n, JobSvd::Thin => k, JobSvd::Skip => 0 };
        let u_len = m * u_cols;
        let vt_len = vt_rows * n;
        let rwork = svddc_rwork(kind, job, m, n, k);
        if u_len > usize::MAX || vt_len > usize::MAX || rwork > usize::MAX || 8 * k > usize::MAX {
            Err(LapackError::MemoryAllocation)
        } else {
            Ok(SvddcCall {
                m: v.rows,
                n: v.cols,
                lda: v.lda,
                k: k as i32,
                job,
                u_cols: u_cols as i32,
                vt_rows: vt_rows as i32,
                ldu: at_least_one(m) as i32,
                ldvt: at_least_one(vt_rows) as i32,
                u_len: u_len as usize,
                vt_len: vt_len as usize,
                rwork_len: rwork as usize,
                iwork_len: (8 * k) as usize,
                swapped: v.transposed,
            })
        }
    }
}

/// Checks a buffer against `layout` and gives the native arguments of its
/// divide and conquer SVD.
pub fn svddc_call(layout: MatrixLayout, a_len: usize, kind: ScalarKind, job: JobSvd) -> (r: Result<SvddcCall, LapackError>)
    ensures
        r == svddc_outcome(layout, a_len, kind, job),
{
    if let Err(e) = layout.validate() {
        return Err(e);
    }
    if !layout.fits(a_len) {
        return Err(LapackError::InvalidLayout);
    }
    let v = layout.resolve_for_native();
    let (m, n) = (v.rows as u128, v.cols as u128);
    let k: u128 = if m < n { m } else { n };
    let u_cols: u128 = match job { JobSvd::All => m, JobSvd::Thin => k, JobSvd::Skip => 0 };
    let vt_rows: u128 = match job { JobSvd::All => n, JobSvd::Thin => k, JobSvd::Skip => 0 };
    assert(m * u_cols <= 0x7fff_ffff * 0x7fff_ffff && vt_rows * n <= 0x7fff_ffff * 0x7fff_ffff
        && k * k <= 0x7fff_ffff * 0x7fff_ffff && m * k <= 0x7fff_ffff * 0x7fff_ffff && n * k <= 0x7fff_ffff * 0x7fff_ffff) by (nonlinear_arith)
        requires
            m <= 0x7fff_ffff,
            n <= 0x7fff_ffff,
            k <= m,
            k <= n,
            u_cols <= 0x7fff_ffff,
            vt_rows <= 0x7fff_ffff,
    ;
    let u_len = m * u_cols;
    let vt_len = vt_rows * n;
    let rwork: u128 = if !kind.is_complex() {
        0
    } else if matches!(job, JobSvd::Skip) {
        7 * k
    } else {
        let mx = if m < n { n } else { m };
        assert(mx * k <= 0x7fff_ffff * 0x7fff_ffff) by (nonlinear_arith)
            requires
                mx <= 0x7fff_ffff,
                k <= 0x7fff_ffff,
        ;
        let a = 5 * (k * k) + 5 * k;
        let b = 2 * (mx * k) + 2 * (k * k) + k;
        if a < b { b } else { a }
    };
    let max = usize::MAX as u128;
    if u_len > max || vt_len > max || rwork > max || 8 * k > max {
        return Err(LapackError::MemoryAllocation);
    }
    Ok(SvddcCall {
        m: v.rows,
        n: v.cols,
        lda: v.lda,
        k: k as i32,
        job,
        u_cols: u_cols as i32,
        vt_rows: vt_rows as i32,
        ldu: if m < 1 { 1 } else { m as i32 },
        ldvt: if vt_rows < 1 { 1 } else { vt_rows as i32 },
        u_len: u_len as usize,
        vt_len: vt_len as usize,
        rwork_len: rwork as usize,
        iwork_len: (8 * k) as usize,
        swapped: v.transposed,
    })
}

/// The caller's `U` and `Vᵗ` from the native left and right factor buffers,
/// each with the layout in which the caller reads it: `U` is `rows` x `c`
/// and `Vᵗ` is `c'` x `cols`, packed in the caller's order. Under a swapped
/// view the buffers trade places.
pub fn svddc_caller_factors<T>(layout: MatrixLayout, call: &SvddcCall, native_u: Vec<T>, native_vt: Vec<T>) -> (r: ((Vec<T>, MatrixLayout), (Vec<T>, MatrixLayout)))
    requires
        layout.wf(),
        call.u_cols >= 0,
        call.vt_rows >= 0,
    ensures
        call.swapped ==> (r.0).0 == native_vt && (r.1).0 == native_u,
        !call.swapped ==> (r.0).0 == native_u && (r.1).0 == native_vt,
        (r.0).1 == layout.packed_like_spec(layout.nrows() as i32, if call.swapped { call.vt_rows } else { call.u_cols }),
        (r.1).1 == layout.packed_like_spec(if call.swapped { call.u_cols } else { call.vt_rows }, layout.ncols() as i32),
{
    let c = if call.swapped { call.vt_rows } else { call.u_cols };
    let c2 = if call.swapped { call.u_cols } else { call.vt_rows };
    let ul = layout.packed_like(layout.rows(), c);
    let vl = layout.packed_like(c2, layout.cols());
    if call.swapped { ((native_vt, ul), (native_u, vl)) } else { ((native_u, ul), (native_vt, vl)) }
}

} // verus!
