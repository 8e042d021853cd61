//! How a matrix lies in a flat buffer, and how the native column-major
//! convention sees that buffer without moving any element.
use vstd::prelude::*;
use crate::error::LapackError;

verus! {

/// A matrix of `rows` x `cols` elements in a flat buffer. `leading_dim` is the
/// stride between consecutive rows (row-major) or columns (column-major).
#[derive(Clone, Copy, Debug, PartialEq, Eq, Structural)]
pub enum MatrixLayout {
    RowMajor { rows: i32, cols: i32, leading_dim: i32 },
    ColumnMajor { rows: i32, cols: i32, leading_dim: i32 },
}

/// The parameters the native column-major routines receive for a buffer:
/// a `rows` x `cols` column-major matrix with leading dimension `lda`.
/// When `transposed` holds, that native matrix is the transpose of the
/// caller's logical matrix.
#[derive(Clone, Copy, Debug, PartialEq, Eq, Structural)]
pub struct NativeLayout {
    pub rows: i32,
    pub cols: i32,
    pub lda: i32,
    pub transposed: bool,
}

impl NativeLayout {
    /// Position in the buffer of native element `(i, j)`.
    pub open spec fn offset(&self, i: int, j: int) -> int {
        i + j * self.lda
    }
}

impl MatrixLayout {
    pub open spec fn nrows(&self) -> int {
        match *self {
            MatrixLayout::RowMajor { rows, .. } => rows as int,
            MatrixLayout::ColumnMajor { rows, .. } => rows as int,
        }
    }

    pub open spec fn ncols(&self) -> int {
        match *self {
            MatrixLayout::RowMajor { cols, .. } => cols as int,
            MatrixLayout::ColumnMajor { cols, .. } => cols as int,
        }
    }

    pub open spec fn ld(&self) -> int {
        match *self {
            MatrixLayout::RowMajor { leading_dim, .. } => leading_dim as int,
            MatrixLayout::ColumnMajor { leading_dim, .. } => leading_dim as int,
        }
    }

    pub open spec fn row_major(&self) -> bool {
        self is RowMajor
    }

    /// The dimension that runs contiguously in memory.
    pub open spec fn minor(&self) -> int {
        if self.row_major() { self.ncols() } else { self.nrows() }
    }

    /// The dimension that the leading dimension strides over.
    pub open spec fn major(&self) -> int {
        if self.row_major() { self.nrows() } else { self.ncols() }
    }

    /// Dimensions are non-negative and `leading_dim >= max(1, minor)`.
    pub open spec fn wf(&self) -> bool {
        &&& self.nrows() >= 0
        &&& self.ncols() >= 0
        &&& self.ld() >= 1
        &&& self.ld() >= self.minor()
    }

    /// Position in the buffer of logical element `(i, j)`.
    pub open spec fn offset(&self, i: int, j: int) -> int {
        if self.row_major() { i * self.ld() + j } else { i + j * self.ld() }
    }

    /// The least buffer length that holds every element.
    pub open spec fn needed_len(&self) -> int {
        if self.nrows() == 0 || self.ncols() == 0 {
            0
        } else {
            (self.major() - 1) * self.ld() + self.minor()
        }
    }

    /// The native column-major description of the same buffer: a row-major
    /// matrix is read as the transpose of a column-major one with rows and
    /// columns swapped.
    pub open spec fn native(&self) -> NativeLayout {
        match *self {
            MatrixLayout::RowMajor { rows, cols, leading_dim } => NativeLayout {
                rows: cols,
                cols: rows,
                lda: leading_dim,
                transposed: true,
            },
            MatrixLayout::ColumnMajor { rows, cols, leading_dim } => NativeLayout {
                rows,
                cols,
                lda: leading_dim,
                transposed: false,
            },
        }
    }

    /// The same buffer read as the transposed logical matrix.
    pub open spec fn transposed(&self) -> MatrixLayout {
        match *self {
            MatrixLayout::RowMajor { rows, cols, leading_dim } => MatrixLayout::ColumnMajor {
                rows: cols,
                cols: rows,
                leading_dim,
            },
            MatrixLayout::ColumnMajor { rows, cols, leading_dim } => MatrixLayout::RowMajor {
                rows: cols,
                cols: rows,
                leading_dim,
            },
        }
    }

    /// A layout with `rows <= rows0` and `cols <= cols0` kept in the same
    /// order and with the same leading dimension: the leading block.
    pub open spec fn block(&self, rows: i32, cols: i32) -> MatrixLayout {
        match *self {
            MatrixLayout::RowMajor { leading_dim, .. } => MatrixLayout::RowMajor { rows, cols, leading_dim },
            MatrixLayout::ColumnMajor { leading_dim, .. } => MatrixLayout::ColumnMajor { rows, cols, leading_dim },
        }
    }

    /// A densely packed `rows` x `cols` layout in the same order as this one.
    pub open spec fn packed_like_spec(&self, rows: i32, cols: i32) -> MatrixLayout {
        if self.row_major() {
            MatrixLayout::RowMajor { rows, cols, leading_dim: if cols < 1 { 1 } else { cols } }
        } else {
            MatrixLayout::ColumnMajor { rows, cols, leading_dim: if rows < 1 { 1 } else { rows } }
        }
    }

    /// A row-major layout, or `InvalidLayout` when it breaks the invariant.
    pub fn row_major_checked(rows: i32, cols: i32, leading_dim: i32) -> (r: Result<MatrixLayout, LapackError>)
        ensures
            ({
                let l = MatrixLayout::RowMajor { rows, cols, leading_dim };
                &&& l.wf() ==> r == Ok::<MatrixLayout, LapackError>(l)
                &&& !l.wf() ==> r == Err::<MatrixLayout, LapackError>(LapackError::InvalidLayout)
            }),
    {
        let l = MatrixLayout::RowMajor { rows, cols, leading_dim };
        l.validate()
    }

    /// A column-major layout, or `InvalidLayout` when it breaks the invariant.
    pub fn column_major_checked(rows: i32, cols: i32, leading_dim: i32) -> (r: Result<MatrixLayout, LapackError>)
        ensures
            ({
                let l = MatrixLayout::ColumnMajor { rows, cols, leading_dim };
                &&& l.wf() ==> r == Ok::<MatrixLayout, LapackError>(l)
                &&& !l.wf() ==> r == Err::<MatrixLayout, LapackError>(LapackError::InvalidLayout)
            }),
    {
        let l = MatrixLayout::ColumnMajor { rows, cols, leading_dim };
        l.validate()
    }

    /// This layout when it is well formed, else `InvalidLayout`.
    pub fn validate(self) -> (r: Result<MatrixLayout, LapackError>)
        ensures
            self.wf() ==> r == Ok::<MatrixLayout, LapackError>(self),
            !self.wf() ==> r == Err::<MatrixLayout, LapackError>(LapackError::InvalidLayout),
    {
        let minor = self.minor_dim();
        if self.rows() < 0 || self.cols() < 0 || self.leading_dim() < 1 || self.leading_dim() < minor {
            Err(LapackError::InvalidLayout)
        } else {
            Ok(self)
        }
    }

    pub fn rows(&self) -> (r: i32)
        ensures
            r == self.nrows(),
    {
        match *self {
            MatrixLayout::RowMajor { rows, .. } => rows,
            MatrixLayout::ColumnMajor { rows, .. } => rows,
        }
    }

    pub fn cols(&self) -> (r: i32)
        ensures
            r == self.ncols(),
    {
        match *self {
            MatrixLayout::RowMajor { cols, .. } => cols,
            MatrixLayout::ColumnMajor { cols, .. } => cols,
        }
    }

    pub fn leading_dim(&self) -> (r: i32)
        ensures
            r == self.ld(),
    {
        match *self {
            MatrixLayout::RowMajor { leading_dim, .. } => leading_dim,
            MatrixLayout::ColumnMajor { leading_dim, .. } => leading_dim,
        }
    }

    pub fn is_row_major(&self) -> (r: bool)
        ensures
            r == self.row_major(),
    {
        matches!(*self, MatrixLayout::RowMajor { .. })
    }

    pub fn minor_dim(&self) -> (r: i32)
        ensures
            r == self.minor(),
    {
        if self.is_row_major() { self.cols() } else { self.rows() }
    }

    pub fn major_dim(&self) -> (r: i32)
        ensures
            r == self.major(),
    {
        if self.is_row_major() { self.rows() } else { self.cols() }
    }

    /// Whether both layouts store rows contiguously, or both columns.
    pub fn same_order(&self, other: &MatrixLayout) -> (r: bool)
        ensures
            r == (self.row_major() == other.row_major()),
    {
        self.is_row_major() == other.is_row_major()
    }

    /// The least buffer length that holds every element of a well-formed layout.
    pub fn required_len(&self) -> (r: u64)
        requires
            self.wf(),
        ensures
            r == self.needed_len(),
    {
        let major = self.major_dim();
        if self.rows() == 0 || self.cols() == 0 {
            0
        } else {
            let m: i64 = major as i64 - 1;
            let ld: i64 = self.leading_dim() as i64;
            assert(0 <= m * ld <= 0x7fff_ffff * 0x7fff_ffff) by (nonlinear_arith)
                requires
                    0 <= m <= 0x7fff_ffff,
                    1 <= ld <= 0x7fff_ffff,
            ;
            (m * ld + self.minor_dim() as i64) as u64
        }
    }

    /// Whether a buffer of `len` elements holds every element of this layout.
    pub fn fits(&self, len: usize) -> (r: bool)
        requires
            self.wf(),
        ensures
            r == (len >= self.needed_len()),
    {
        len as u64 >= self.required_len()
    }

    /// The parameters for a native column-major routine reading this buffer.
    /// No element moves: a row-major buffer is handed over as the transpose.
    pub fn resolve_for_native(&self) -> (r: NativeLayout)
        ensures
            r == self.native(),
    {
        match *self {
            MatrixLayout::RowMajor { rows, cols, leading_dim } => NativeLayout {
                rows: cols,
                cols: rows,
                lda: leading_dim,
                transposed: true,
            },
            MatrixLayout::ColumnMajor { rows, cols, leading_dim } => NativeLayout {
                rows,
                cols,
                lda: leading_dim,
                transposed: false,
            },
        }
    }

    /// The same buffer read as the transposed matrix.
    pub fn t(&self) -> (r: MatrixLayout)
        ensures
            r == self.transposed(),
    {
        match *self {
            MatrixLayout::RowMajor { rows, cols, leading_dim } => MatrixLayout::ColumnMajor {
                rows: cols,
                cols: rows,
                leading_dim,
            },
            MatrixLayout::ColumnMajor { rows, cols, leading_dim } => MatrixLayout::RowMajor {
                rows: cols,
                cols: rows,
                leading_dim,
            },
        }
    }

    /// The leading `rows` x `cols` block of this matrix, in the same buffer.
    pub fn leading_block(&self, rows: i32, cols: i32) -> (r: MatrixLayout)
        ensures
            r == self.block(rows, cols),
    {
        match *self {
            MatrixLayout::RowMajor { leading_dim, .. } => MatrixLayout::RowMajor { rows, cols, leading_dim },
            MatrixLayout::ColumnMajor { leading_dim, .. } => MatrixLayout::ColumnMajor { rows, cols, leading_dim },
        }
    }

    /// A densely packed `rows` x `cols` layout in the same order as this one.
    pub fn packed_like(&self, rows: i32, cols: i32) -> (r: MatrixLayout)
        requires
            rows >= 0,
            cols >= 0,
        ensures
            r.wf(),
            r.row_major() == self.row_major(),
            r.nrows() == rows,
            r.ncols() == cols,
            r.ld() == if r.minor() < 1 { 1 } else { r.minor() },
            r == self.packed_like_spec(rows, cols),
    {
        if self.is_row_major() {
            MatrixLayout::RowMajor { rows, cols, leading_dim: if cols < 1 { 1 } else { cols } }
        } else {
            MatrixLayout::ColumnMajor { rows, cols, leading_dim: if rows < 1 { 1 } else { rows } }
        }
    }
}

/// Every logical element of a well-formed layout lies inside the buffer, and
/// the native column-major view addresses the same position for it: element
/// `(i, j)` is native `(i, j)`, or native `(j, i)` when the view is transposed.
/// The native view is itself well formed.
pub proof fn lemma_native_view_lossless(l: MatrixLayout, i: int, j: int)
    requires
        l.wf(),
        0 <= i < l.nrows(),
        0 <= j < l.ncols(),
    ensures
        0 <= l.offset(i, j) < l.needed_len(),
        l.native().lda >= 1,
        l.native().lda >= l.native().rows,
        l.native().rows >= 0,
        l.native().cols >= 0,
        !l.native().transposed ==> l.native().rows == l.nrows() && l.native().cols == l.ncols()
            && l.native().offset(i, j) == l.offset(i, j),
        l.native().transposed ==> l.native().rows == l.ncols() && l.native().cols == l.nrows()
            && l.native().offset(j, i) == l.offset(i, j),
{
    let ld = l.ld();
    if l.row_major() {
        assert(0 <= i * ld + j < (l.nrows() - 1) * ld + l.ncols()) by (nonlinear_arith)
            requires
                0 <= i < l.nrows(),
                0 <= j < l.ncols(),
                ld >= l.ncols(),
        ;
        assert(j + i * ld == i * ld + j);
    } else {
        assert(0 <= i + j * ld < (l.ncols() - 1) * ld + l.nrows()) by (nonlinear_arith)
            requires
                0 <= i < l.nrows(),
                0 <= j < l.ncols(),
                ld >= l.nrows(),
        ;
    }
}

/// Reading a buffer as the transposed matrix loses nothing: the transposed
/// layout is well formed, holds element `(i, j)` at its `(j, i)`, needs the
/// same buffer, and transposing twice gives the layout back.
pub proof fn lemma_transpose_view(l: MatrixLayout, i: int, j: int)
    requires
        l.wf(),
    ensures
        l.transposed().wf(),
        l.transposed().nrows() == l.ncols(),
        l.transposed().ncols() == l.nrows(),
        l.transposed().offset(j, i) == l.offset(i, j),
        l.transposed().needed_len() == l.needed_len(),
        l.transposed().transposed() == l,
{
    assert(i * l.ld() + j == j + i * l.ld());
}

/// A leading block no larger than the matrix is well formed, addresses each
/// of its elements where the whole matrix does, and needs no more buffer.
pub proof fn lemma_leading_block(l: MatrixLayout, rows: i32, cols: i32, i: int, j: int)
    requires
        l.wf(),
        0 <= rows <= l.nrows(),
        0 <= cols <= l.ncols(),
    ensures
        l.block(rows, cols).wf(),
        l.block(rows, cols).nrows() == rows,
        l.block(rows, cols).ncols() == cols,
        l.block(rows, cols).row_major() == l.row_major(),
        l.block(rows, cols).offset(i, j) == l.offset(i, j),
        l.block(rows, cols).needed_len() <= l.needed_len(),
{
    let b = l.block(rows, cols);
    let ld = l.ld();
    if b.nrows() > 0 && b.ncols() > 0 {
        assert((b.major() - 1) * ld <= (l.major() - 1) * ld) by (nonlinear_arith)
            requires
                1 <= b.major() <= l.major(),
                ld >= 1,
        ;
    }
}

} // verus!
