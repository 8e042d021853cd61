//! Copies between a caller's layout and a packed column-major buffer, for
//! native routines that take a block of right-hand sides column by column.
use vstd::prelude::*;
use crate::layout::{lemma_native_view_lossless, MatrixLayout};
use crate::qr::element_index;

verus! {

/// The packed column-major layout of a `rows` x `cols` matrix.
pub open spec fn packed_column_major(rows: int, cols: int) -> MatrixLayout {
    MatrixLayout::ColumnMajor { rows: rows as i32, cols: cols as i32, leading_dim: if rows < 1 { 1 } else { rows as i32 } }
}

proof fn lemma_flat_before(j: int, i: int, j2: int, i2: int, rows: int)
    requires
        0 <= i < rows,
        0 <= i2 < rows,
        0 <= j2,
        j2 < j || (j2 == j && i2 < i),
    ensures
        0 <= i2 + j2 * rows < i + j * rows,
{
    if j2 < j {
        assert(j2 * rows + rows <= j * rows) by (nonlinear_arith)
            requires
                j2 < j,
                0 <= rows,
        ;
    }
    assert(0 <= j2 * rows) by (nonlinear_arith)
        requires
            0 <= j2,
            0 <= rows,
    ;
}

/// Distinct elements of a well-formed layout lie at distinct positions.
pub proof fn lemma_offset_injective(l: MatrixLayout, i: int, j: int, i2: int, j2: int)
    requires
        l.wf(),
        0 <= i < l.nrows(),
        0 <= j < l.ncols(),
        0 <= i2 < l.nrows(),
        0 <= j2 < l.ncols(),
        (i, j) != (i2, j2),
    ensures
        l.offset(i, j) != l.offset(i2, j2),
{
    let ld = l.ld();
    if l.row_major() {
        if i == i2 {
        } else if i < i2 {
            assert(i * ld + j < i2 * ld + j2) by (nonlinear_arith)
                requires
                    i < i2,
                    0 <= j < ld,
                    0 <= j2,
            ;
        } else {
            assert(i2 * ld + j2 < i * ld + j) by (nonlinear_arith)
                requires
                    i2 < i,
                    0 <= j2 < ld,
                    0 <= j,
            ;
        }
    } else {
        if j == j2 {
        } else if j < j2 {
            assert(i + j * ld < i2 + j2 * ld) by (nonlinear_arith)
                requires
                    j < j2,
                    0 <= i < ld,
                    0 <= i2,
            ;
        } else {
            assert(i2 + j2 * ld < i + j * ld) by (nonlinear_arith)
                requires
                    j2 < j,
                    0 <= i2 < ld,
                    0 <= i,
            ;
        }
    }
}

/// A packed column-major copy of the matrix that `bl` lays out in `b`.
pub fn copy_to_column_major<T: Copy>(bl: MatrixLayout, b: &[T]) -> (r: (Vec<T>, MatrixLayout))
    requires
        bl.wf(),
        b@.len() >= bl.needed_len(),
    ensures
        r.1 == packed_column_major(bl.nrows(), bl.ncols()),
        r.1.wf(),
        r.0@.len() == r.1.needed_len(),
        forall|i: int, j: int|
            0 <= i < bl.nrows() && 0 <= j < bl.ncols() ==> #[trigger] r.0@[r.1.offset(i, j)] == b@[bl.offset(i, j)],
{
    let rows = bl.rows();
    let cols = bl.cols();
    let cl = MatrixLayout::ColumnMajor { rows, cols, leading_dim: if rows < 1 { 1 } else { rows } };
    let mut out: Vec<T> = Vec::new();
    let mut j: i32 = 0;
    while j < cols
        invariant
            bl.wf(),
            b@.len() >= bl.needed_len(),
            rows == bl.nrows(),
            cols == bl.ncols(),
            0 <= j <= cols,
            out@.len() == j * rows,
            forall|i2: int, j2: int|
                0 <= i2 < rows && 0 <= j2 < j ==> #[trigger] out@[i2 + j2 * rows] == b@[bl.offset(i2, j2)],
        decreases cols - j,
    {
        let mut i: i32 = 0;
        while i < rows
            invariant
                bl.wf(),
                b@.len() >= bl.needed_len(),
                rows == bl.nrows(),
                cols == bl.ncols(),
                0 <= j < cols,
                0 <= i <= rows,
                out@.len() == j * rows + i,
                forall|i2: int, j2: int|
                    0 <= i2 < rows && (0 <= j2 < j || (j2 == j && i2 < i)) ==> #[trigger] out@[i2 + j2 * rows] == b@[bl.offset(i2, j2)],
            decreases rows - i,
        {
            let x = b[element_index(&bl, i, j, b.len())];
            let ghost before = out@;
            out.push(x);
            proof {
                assert forall|i2: int, j2: int|
                    0 <= i2 < rows && (0 <= j2 < j || (j2 == j && i2 < i + 1)) implies #[trigger] out@[i2 + j2 * rows] == b@[bl.offset(i2, j2)] by {
                    if !(i2 == i && j2 == j) {
                        lemma_flat_before(j as int, i as int, j2, i2, rows as int);
                        assert(out@[i2 + j2 * rows] == before[i2 + j2 * rows]);
                    }
                }
            }
            i = i + 1;
        }
        assert(out@.len() == (j + 1) * rows) by (nonlinear_arith)
            requires
                out@.len() == j * rows + rows,
        ;
        j = j + 1;
    }
    proof {
        if rows == 0 || cols == 0 {
            assert(cols * rows == 0) by (nonlinear_arith)
                requires
                    rows == 0 || cols == 0,
            ;
        } else {
            assert((cols - 1) * rows + rows == cols * rows) by (nonlinear_arith);
        }
    }
    (out, cl)
}

/// Writes a packed column-major `x` back into the caller's buffer `b` at the
/// layout `bl`; positions that hold no element of the matrix keep their values.
pub fn copy_from_column_major<T: Copy>(bl: MatrixLayout, b: &mut Vec<T>, x: &[T])
    requires
        bl.wf(),
        old(b)@.len() >= bl.needed_len(),
        x@.len() >= packed_column_major(bl.nrows(), bl.ncols()).needed_len(),
    ensures
        final(b)@.len() == old(b)@.len(),
        forall|i: int, j: int|
            0 <= i < bl.nrows() && 0 <= j < bl.ncols() ==> #[trigger] final(b)@[bl.offset(i, j)]
                == x@[packed_column_major(bl.nrows(), bl.ncols()).offset(i, j)],
        forall|p: int|
            0 <= p < old(b)@.len() && final(b)@[p] != old(b)@[p] ==> exists|i: int, j: int|
                0 <= i < bl.nrows() && 0 <= j < bl.ncols() && p == #[trigger] bl.offset(i, j),
{
    let rows = bl.rows();
    let cols = bl.cols();
    let cl = MatrixLayout::ColumnMajor { rows, cols, leading_dim: if rows < 1 { 1 } else { rows } };
    let ghost orig = b@;
    let mut j: i32 = 0;
    while j < cols
        invariant
            bl.wf(),
            b@.len() == orig.len(),
            orig.len() >= bl.needed_len(),
            cl == packed_column_major(rows as int, cols as int),
            x@.len() >= cl.needed_len(),
            rows == bl.nrows(),
            cols == bl.ncols(),
            0 <= j <= cols,
            forall|i2: int, j2: int|
                0 <= i2 < rows && 0 <= j2 < j ==> #[trigger] b@[bl.offset(i2, j2)] == x@[cl.offset(i2, j2)],
            forall|p: int|
                0 <= p < orig.len() && b@[p] != orig[p] ==> exists|i2: int, j2: int|
                    0 <= i2 < rows && 0 <= j2 < cols && p == #[trigger] bl.offset(i2, j2),
        decreases cols - j,
    {
        let mut i: i32 = 0;
        while i < rows
            invariant
                bl.wf(),
                b@.len() == orig.len(),
                orig.len() >= bl.needed_len(),
                cl == packed_column_major(rows as int, cols as int),
                x@.len() >= cl.needed_len(),
                rows == bl.nrows(),
                cols == bl.ncols(),
                0 <= j < cols,
                0 <= i <= rows,
                forall|i2: int, j2: int|
                    0 <= i2 < rows && (0 <= j2 < j || (j2 == j && i2 < i)) ==> #[trigger] b@[bl.offset(i2, j2)] == x@[cl.offset(i2, j2)],
                forall|p: int|
                    0 <= p < orig.len() && b@[p] != orig[p] ==> exists|i2: int, j2: int|
                        0 <= i2 < rows && 0 <= j2 < cols && p == #[trigger] bl.offset(i2, j2),
            decreases rows - i,
        {
            let src = element_index(&cl, i, j, x.len());
            let dst = element_index(&bl, i, j, b.len());
            let ghost before = b@;
            b.set(dst, x[src]);
            proof {
                assert forall|i2: int, j2: int|
                    0 <= i2 < rows && (0 <= j2 < j || (j2 == j && i2 < i + 1)) implies #[trigger] b@[bl.offset(i2, j2)] == x@[cl.offset(i2, j2)] by {
                    if !(i2 == i && j2 == j) {
                        lemma_offset_injective(bl, i as int, j as int, i2, j2);
                        lemma_native_view_lossless(bl, i2, j2);
                        assert(b@[bl.offset(i2, j2)] == before[bl.offset(i2, j2)]);
                    }
                }
                assert forall|p: int|
                    0 <= p < orig.len() && b@[p] != orig[p] implies exists|i2: int, j2: int|
                        0 <= i2 < rows && 0 <= j2 < cols && p == #[trigger] bl.offset(i2, j2) by {
                    if p == dst as int {
                        assert(p == bl.offset(i as int, j as int));
                    } else {
                        assert(before[p] == b@[p]);
                    }
                }
            }
            i = i + 1;
        }
        j = j + 1;
    }
}

} // verus!
