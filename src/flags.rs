//! Scalar kinds and the flags handed to native routines, with the way a
//! layout's implicit transpose composes with them.
use vstd::prelude::*;
use crate::layout::MatrixLayout;

verus! {

/// The four element kinds the native library works on.
#[derive(Clone, Copy, Debug, PartialEq, Eq, Structural)]
pub enum ScalarKind {
    Real32,
    Real64,
    Complex32,
    Complex64,
}

impl ScalarKind {
    pub open spec fn complex(&self) -> bool {
        self is Complex32 || self is Complex64
    }

    /// Whether conjugate transpose differs from plain transpose for this kind.
    pub fn is_complex(&self) -> (r: bool)
        ensures
            r == self.complex(),
    {
        matches!(*self, ScalarKind::Complex32 | ScalarKind::Complex64)
    }

    /// The letter that names this kind's routines in the native library.
    pub fn routine_letter(&self) -> (r: char)
        ensures
            *self is Real32 ==> r == 's',
            *self is Real64 ==> r == 'd',
            *self is Complex32 ==> r == 'c',
            *self is Complex64 ==> r == 'z',
    {
        match *self {
            ScalarKind::Real32 => 's',
            ScalarKind::Real64 => 'd',
            ScalarKind::Complex32 => 'c',
            ScalarKind::Complex64 => 'z',
        }
    }
}

/// Which operator a routine applies to a matrix `A`: `A`, `Aᵗ` or `Aᴴ`.
#[derive(Clone, Copy, Debug, PartialEq, Eq, Structural)]
pub enum Transpose {
    No,
    Transpose,
    Hermite,
}

/// An operator as two independent switches: (transposes, conjugates).
/// Two transposes cancel, and so do two conjugations.
pub open spec fn op_model(t: Transpose) -> (bool, bool) {
    match t {
        Transpose::No => (false, false),
        Transpose::Transpose => (true, false),
        Transpose::Hermite => (true, true),
    }
}

impl Transpose {
    /// The character the native routines expect.
    pub fn code(&self) -> (r: char)
        ensures
            *self is No ==> r == 'N',
            *self is Transpose ==> r == 'T',
            *self is Hermite ==> r == 'C',
    {
        match *self {
            Transpose::No => 'N',
            Transpose::Transpose => 'T',
            Transpose::Hermite => 'C',
        }
    }
}

/// What to hand the native routine for an operator requested on the caller's
/// matrix: the native operator, and whether one explicit conjugation pass
/// over the right-hand side is needed before and after the call.
#[derive(Clone, Copy, Debug, PartialEq, Eq, Structural)]
pub struct NativeOp {
    pub trans: Transpose,
    pub conjugate_pass: bool,
}

/// The native operator for `request` when the native view of the buffer
/// is (`layout_transposed`) or is not the transpose of the caller's matrix.
pub open spec fn native_op(layout_transposed: bool, request: Transpose, kind: ScalarKind) -> NativeOp {
    if !layout_transposed {
        NativeOp { trans: request, conjugate_pass: false }
    } else {
        match request {
            Transpose::No => NativeOp { trans: Transpose::Transpose, conjugate_pass: false },
            Transpose::Transpose => NativeOp { trans: Transpose::No, conjugate_pass: false },
            Transpose::Hermite => NativeOp { trans: Transpose::No, conjugate_pass: kind.complex() },
        }
    }
}

/// Composes a requested operator with the implicit transpose of a layout.
pub fn compose(layout_transposed: bool, request: Transpose, kind: ScalarKind) -> (r: NativeOp)
    ensures
        r == native_op(layout_transposed, request, kind),
{
    if !layout_transposed {
        NativeOp { trans: request, conjugate_pass: false }
    } else {
        match request {
            Transpose::No => NativeOp { trans: Transpose::Transpose, conjugate_pass: false },
            Transpose::Transpose => NativeOp { trans: Transpose::No, conjugate_pass: false },
            Transpose::Hermite => NativeOp { trans: Transpose::No, conjugate_pass: kind.is_complex() },
        }
    }
}

/// The operator that results on the caller's matrix when the native routine
/// applies `op.trans` to a view that is (or is not) its transpose, with the
/// conjugation pass applied if asked.
pub open spec fn effective_op(layout_transposed: bool, op: NativeOp) -> (bool, bool) {
    (op_model(op.trans).0 != layout_transposed, op_model(op.trans).1 != op.conjugate_pass)
}

/// Composing with the layout's implicit transpose loses nothing: the
/// operator that reaches the caller's matrix is the one requested. For real
/// kinds conjugation is the identity, so only the transposition must agree.
pub proof fn lemma_compose_exact(layout_transposed: bool, request: Transpose, kind: ScalarKind)
    ensures
        effective_op(layout_transposed, native_op(layout_transposed, request, kind)).0
            == op_model(request).0,
        kind.complex() ==> effective_op(layout_transposed, native_op(layout_transposed, request, kind))
            == op_model(request),
        !kind.complex() ==> !native_op(layout_transposed, request, kind).conjugate_pass,
{
}

/// A row-major and a column-major layout of the same logical matrix lead to
/// native calls that apply the same operator to that matrix, and address each
/// of its elements at the same native position up to the view's transpose.
pub proof fn lemma_layouts_agree(
    r: MatrixLayout,
    c: MatrixLayout,
    request: Transpose,
    kind: ScalarKind,
    i: int,
    j: int,
)
    requires
        r.wf(),
        c.wf(),
        r.row_major(),
        !c.row_major(),
        r.nrows() == c.nrows(),
        r.ncols() == c.ncols(),
        0 <= i < r.nrows(),
        0 <= j < r.ncols(),
    ensures
        effective_op(r.native().transposed, native_op(r.native().transposed, request, kind)).0
            == effective_op(c.native().transposed, native_op(c.native().transposed, request, kind)).0,
        kind.complex() ==> effective_op(r.native().transposed, native_op(r.native().transposed, request, kind))
            == effective_op(c.native().transposed, native_op(c.native().transposed, request, kind)),
        r.native().offset(j, i) == r.offset(i, j),
        c.native().offset(i, j) == c.offset(i, j),
{
    lemma_compose_exact(r.native().transposed, request, kind);
    lemma_compose_exact(c.native().transposed, request, kind);
    crate::layout::lemma_native_view_lossless(r, i, j);
    crate::layout::lemma_native_view_lossless(c, i, j);
}

/// Which triangle of a symmetric or Hermitian matrix holds its data.
#[derive(Clone, Copy, Debug, PartialEq, Eq, Structural)]
pub enum Uplo {
    Upper,
    Lower,
}

/// Whether element `(i, j)` lies in the triangle `u`.
pub open spec fn in_triangle(u: Uplo, i: int, j: int) -> bool {
    match u {
        Uplo::Upper => i <= j,
        Uplo::Lower => i >= j,
    }
}

impl Uplo {
    pub open spec fn flipped(&self) -> Uplo {
        match *self {
            Uplo::Upper => Uplo::Lower,
            Uplo::Lower => Uplo::Upper,
        }
    }

    /// The other triangle.
    pub fn t(&self) -> (r: Uplo)
        ensures
            r == self.flipped(),
    {
        match *self {
            Uplo::Upper => Uplo::Lower,
            Uplo::Lower => Uplo::Upper,
        }
    }

    /// The triangle to name to a native routine whose view of the buffer is
    /// (or is not) the transpose of the caller's matrix.
    pub fn for_native(&self, layout_transposed: bool) -> (r: Uplo)
        ensures
            r == if layout_transposed { self.flipped() } else { *self },
    {
        if layout_transposed { self.t() } else { *self }
    }

    /// The character the native routines expect.
    pub fn code(&self) -> (r: char)
        ensures
            *self is Upper ==> r == 'U',
            *self is Lower ==> r == 'L',
    {
        match *self {
            Uplo::Upper => 'U',
            Uplo::Lower => 'L',
        }
    }
}

/// The triangle named to the native routine covers exactly the caller's
/// triangle: caller element `(i, j)` is in `u` iff its native position,
/// `(j, i)` under a transposed view, is in the triangle handed over.
pub proof fn lemma_uplo_for_native(u: Uplo, layout_transposed: bool, i: int, j: int)
    ensures
        ({
            let named = if layout_transposed { u.flipped() } else { u };
            let p = if layout_transposed { j } else { i };
            let q = if layout_transposed { i } else { j };
            in_triangle(u, i, j) == in_triangle(named, p, q)
        }),
        u.flipped().flipped() == u,
{
}

/// Which operator norm to compute.
#[derive(Clone, Copy, Debug, PartialEq, Eq, Structural)]
pub enum NormType {
    /// Largest column sum of magnitudes.
    One,
    /// Largest row sum of magnitudes.
    Infinity,
    /// Square root of the sum of squared magnitudes.
    Frobenius,
}

impl NormType {
    /// The norm of `Aᵗ` that equals this norm of `A`.
    pub open spec fn of_transpose(&self) -> NormType {
        match *self {
            NormType::One => NormType::Infinity,
            NormType::Infinity => NormType::One,
            NormType::Frobenius => NormType::Frobenius,
        }
    }

    /// The norm to ask of the transposed matrix so as to get this one.
    pub fn transpose(&self) -> (r: NormType)
        ensures
            r == self.of_transpose(),
            r.of_transpose() == *self,
    {
        match *self {
            NormType::One => NormType::Infinity,
            NormType::Infinity => NormType::One,
            NormType::Frobenius => NormType::Frobenius,
        }
    }

    /// The character the native routines expect.
    pub fn code(&self) -> (r: char)
        ensures
            *self is One ==> r == 'O',
            *self is Infinity ==> r == 'I',
            *self is Frobenius ==> r == 'F',
    {
        match *self {
            NormType::One => 'O',
            NormType::Infinity => 'I',
            NormType::Frobenius => 'F',
        }
    }
}

} // verus!
