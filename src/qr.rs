//! Thin QR decomposition: the native reflector calls for a layout, and the
//! assembly of `R` and `Q` from the factored buffer.
use vstd::prelude::*;
use crate::error::LapackError;
use crate::layout::{lemma_native_view_lossless, MatrixLayout};
use crate::solve::min_int;

verus! {

/// Which pair of native routines factors the buffer: QR (then form Q from
/// column reflectors) for a column-major view, LQ (then form Q from row
/// reflectors) for the transposed view of a row-major buffer.
#[derive(Clone, Copy, Debug, PartialEq, Eq, Structural)]
pub enum Reflectors {
    Qr,
    Lq,
}

/// Native arguments of a thin QR: factor the `m` x `n` view with leading
/// dimension `lda` into `k` reflectors, then form the `form_rows` x
/// `form_cols` orthonormal factor in place.
#[derive(Clone, Copy, Debug, PartialEq, Eq, Structural)]
pub struct QrCall {
    pub reflectors: Reflectors,
    pub m: i32,
    pub n: i32,
    pub lda: i32,
    pub k: i32,
    pub form_rows: i32,
    pub form_cols: i32,
}

pub open spec fn qr_outcome(layout: MatrixLayout, a_len: usize) -> Result<QrCall, LapackError> {
    if !layout.wf() || a_len < layout.needed_len() {
        Err(LapackError::InvalidLayout)
    } else {
        let v = layout.native();
        let k = min_int(layout.nrows(), layout.ncols()) as i32;
        Ok(QrCall {
            reflectors: if v.transposed { Reflectors::Lq } else { Reflectors::Qr },
            m: v.rows,
            n: v.cols,
            lda: v.lda,
            k,
            form_rows: if v.transposed { k } else { v.rows },
            form_cols: if v.transposed { v.cols } else { k },
        })
    }
}

/// Checks a buffer of `a_len` elements against `layout` and gives the native
/// arguments of its thin QR decomposition.
pub fn qr_call(layout: MatrixLayout, a_len: usize) -> (r: Result<QrCall, LapackError>)
    ensures
        r == qr_outcome(layout, a_len),
{
    if let Err(e) = layout.validate() {
        return Err(e);
    }
    if !layout.fits(a_len) {
        return Err(LapackError::InvalidLayout);
    }
    let v = layout.resolve_for_native();
    let k = if layout.rows() < layout.cols() { layout.rows() } else { layout.cols() };
    Ok(QrCall {
        reflectors: if v.transposed { Reflectors::Lq } else { Reflectors::Qr },
        m: v.rows,
        n: v.cols,
        lda: v.lda,
        k,
        form_rows: if v.transposed { k } else { v.rows },
        form_cols: if v.transposed { v.cols } else { k },
    })
}

/// Where the thin `Q` stands once formed in place: the leading
/// `rows` x `min(rows, cols)` block of the caller's buffer, in its layout.
pub fn thin_q_layout(layout: MatrixLayout) -> (r: MatrixLayout)
    requires
        layout.wf(),
    ensures
        r == layout.block(layout.nrows() as i32, min_int(layout.nrows(), layout.ncols()) as i32),
        r.wf(),
{
    let k = if layout.rows() < layout.cols() { layout.rows() } else { layout.cols() };
    layout.leading_block(layout.rows(), k)
}

/// The layout of `R`: `min(rows, cols)` x `cols`, packed, in the caller's order.
pub open spec fn r_layout(layout: MatrixLayout) -> MatrixLayout {
    let k = min_int(layout.nrows(), layout.ncols());
    if layout.row_major() {
        MatrixLayout::RowMajor { rows: k as i32, cols: layout.ncols() as i32, leading_dim: if layout.ncols() < 1 { 1 } else { layout.ncols() as i32 } }
    } else {
        MatrixLayout::ColumnMajor { rows: k as i32, cols: layout.ncols() as i32, leading_dim: if k < 1 { 1 } else { k as i32 } }
    }
}

/// Element `(i, j)` of `R` read from the factored buffer: the upper
/// trapezoid as the factorization left it, zero below the diagonal.
pub open spec fn r_entry<T>(layout: MatrixLayout, a: Seq<T>, zero: T, i: int, j: int) -> T {
    if i <= j { a[layout.offset(i, j)] } else { zero }
}

/// Position in the buffer of element `(i, j)` of a well-formed layout.
pub fn element_index(layout: &MatrixLayout, i: i32, j: i32, len: usize) -> (r: usize)
    requires
        layout.wf(),
        0 <= i < layout.nrows(),
        0 <= j < layout.ncols(),
        len >= layout.needed_len(),
    ensures
        r == layout.offset(i as int, j as int),
        r < len,
{
    proof {
        lemma_native_view_lossless(*layout, i as int, j as int);
    }
    let ld = layout.leading_dim() as i64;
    assert(0 <= (i as int) * ld <= 0x7fff_ffff * 0x7fff_ffff && 0 <= (j as int) * ld <= 0x7fff_ffff * 0x7fff_ffff) by (nonlinear_arith)
        requires
            0 <= i <= 0x7fff_ffff,
            0 <= j <= 0x7fff_ffff,
            1 <= ld <= 0x7fff_ffff,
    ;
    if layout.is_row_major() {
        (i as i64 * ld + j as i64) as usize
    } else {
        (i as i64 + j as i64 * ld) as usize
    }
}

proof fn lemma_flat_index(u: int, v: int, u2: int, v2: int, minor: int)
    requires
        0 <= v < minor,
        0 <= v2 < minor,
        0 <= u2,
        u2 < u || (u2 == u && v2 < v),
    ensures
        0 <= u2 * minor + v2 < u * minor + v,
{
    if u2 < u {
        assert(u2 * minor + v2 < u * minor) by (nonlinear_arith)
            requires
                u2 < u,
                0 <= v2 < minor,
        ;
    }
    assert(0 <= u2 * minor) by (nonlinear_arith)
        requires
            0 <= u2,
            0 <= minor,
    ;
}

/// Copies `R` out of a buffer factored by the QR call, before `Q` is formed
/// over it: a packed `min(rows, cols)` x `cols` matrix in the caller's order,
/// with zeros below the diagonal.
pub fn extract_r<T: Copy>(layout: MatrixLayout, a: &[T], zero: T) -> (r: (Vec<T>, MatrixLayout))
    requires
        layout.wf(),
        a@.len() >= layout.needed_len(),
    ensures
        r.1 == r_layout(layout),
        r.1.wf(),
        r.0@.len() == r.1.needed_len(),
        forall|i: int, j: int|
            0 <= i < r.1.nrows() && 0 <= j < r.1.ncols() ==> r.0@[r.1.offset(i, j)] == #[trigger] r_entry(
                layout,
                a@,
                zero,
                i,
                j,
            ),
{
    let k = if layout.rows() < layout.cols() { layout.rows() } else { layout.cols() };
    let cols = layout.cols();
    let rl = layout.packed_like(k, cols);
    let major = rl.major_dim();
    let minor = rl.minor_dim();
    let row_major = rl.is_row_major();
    let mut out: Vec<T> = Vec::new();
    let mut u: i32 = 0;
    while u < major
        invariant
            layout.wf(),
            a@.len() >= layout.needed_len(),
            rl == r_layout(layout),
            rl.wf(),
            k == rl.nrows(),
            k <= layout.nrows(),
            cols == layout.ncols(),
            cols == rl.ncols(),
            major == rl.major(),
            minor == rl.minor(),
            row_major == rl.row_major(),
            0 <= u <= major,
            out@.len() == u * minor,
            forall|u2: int, v2: int|
                0 <= u2 < u && 0 <= v2 < minor ==> #[trigger] out@[u2 * minor + v2] == (if row_major {
                    r_entry(layout, a@, zero, u2, v2)
                } else {
                    r_entry(layout, a@, zero, v2, u2)
                }),
        decreases major - u,
    {
        let mut v: i32 = 0;
        while v < minor
            invariant
                layout.wf(),
                a@.len() >= layout.needed_len(),
                rl == r_layout(layout),
                k == rl.nrows(),
                k <= layout.nrows(),
                cols == layout.ncols(),
                cols == rl.ncols(),
                major == rl.major(),
                minor == rl.minor(),
                row_major == rl.row_major(),
                0 <= u < major,
                0 <= v <= minor,
                out@.len() == u * minor + v,
                forall|u2: int, v2: int|
                    0 <= v2 < minor && (0 <= u2 < u || (u2 == u && v2 < v)) ==> #[trigger] out@[u2 * minor + v2] == (if row_major {
                        r_entry(layout, a@, zero, u2, v2)
                    } else {
                        r_entry(layout, a@, zero, v2, u2)
                    }),
            decreases minor - v,
        {
            let (i, j) = if row_major { (u, v) } else { (v, u) };
            let x = if i <= j {
                a[element_index(&layout, i, j, a.len())]
            } else {
                zero
            };
            let ghost before = out@;
            out.push(x);
            proof {
                assert forall|u2: int, v2: int|
                    0 <= v2 < minor && (0 <= u2 < u || (u2 == u && v2 < v + 1)) implies #[trigger] out@[u2 * minor + v2] == (if row_major {
                        r_entry(layout, a@, zero, u2, v2)
                    } else {
                        r_entry(layout, a@, zero, v2, u2)
                    }) by {
                    if u2 == u && v2 == v {
                    } else {
                        lemma_flat_index(u as int, v as int, u2, v2, minor as int);
                        assert(out@[u2 * minor + v2] == before[u2 * minor + v2]);
                    }
                }
            }
            v = v + 1;
        }
        assert(out@.len() == (u + 1) * minor) by (nonlinear_arith)
            requires
                out@.len() == u * minor + minor,
        ;
        u = u + 1;
    }
    proof {
        assert forall|i: int, j: int|
            0 <= i < rl.nrows() && 0 <= j < rl.ncols() implies out@[rl.offset(i, j)] == #[trigger] r_entry(
                layout,
                a@,
                zero,
                i,
                j,
            ) by {
            if row_major {
                assert(rl.offset(i, j) == i * minor + j);
            } else {
                assert(rl.offset(i, j) == j * minor + i);
            }
        }
        if rl.nrows() == 0 || rl.ncols() == 0 {
            assert(major == 0 || minor == 0);
            assert(major * minor == 0) by (nonlinear_arith)
                requires
                    major == 0 || minor == 0,
            ;
        } else {
            assert(rl.ld() == minor);
            assert((major - 1) * minor + minor == major * minor) by (nonlinear_arith);
        }
    }
    (out, rl)
}

} // verus!
