use lax::cholesky::Diag;
use lax::eig::{eig_call, EigCall};
use lax::error::LapackError;
use lax::flags::{ScalarKind, Transpose, Uplo};
use lax::inverse::{lu_inverse_call, triangular_inverse_call, InverseCall, INVERSE_PIVOT_ARG};
use lax::layout::MatrixLayout;
use lax::least_squares::{least_squares_call, LeastSquaresCall};
use lax::solveh::{bk_call, BkCall, BK_PIVOT_ARG};
use lax::svddc::{svddc_call, svddc_caller_factors, JobSvd, SvddcCall};
use lax::tridiagonal::{tridiagonal_call, tridiagonal_solve_call, TridiagonalCall, TridiagonalSolveCall, TRIDIAGONAL_PIVOT_ARG};

#[test]
fn lu_inverse_checks_pivots() {
    let l = MatrixLayout::RowMajor { rows: 3, cols: 3, leading_dim: 3 };
    assert_eq!(
        lu_inverse_call(l, 9, &[3, 2, 3]),
        Ok(InverseCall { n: 3, lda: 3, uplo: Uplo::Upper, diag: Diag::NonUnit })
    );
    assert_eq!(lu_inverse_call(l, 9, &[4, 2, 3]), Err(LapackError::InvalidValue(INVERSE_PIVOT_ARG)));
    assert_eq!(INVERSE_PIVOT_ARG, 4);
    assert_eq!(lu_inverse_call(l, 9, &[1, 2]), Err(LapackError::InvalidLayout));
}

#[test]
fn triangular_inverse_flips_triangle_for_row_major() {
    let l = MatrixLayout::RowMajor { rows: 2, cols: 2, leading_dim: 2 };
    assert_eq!(
        triangular_inverse_call(l, 4, Uplo::Upper, Diag::Unit),
        Ok(InverseCall { n: 2, lda: 2, uplo: Uplo::Lower, diag: Diag::Unit })
    );
    let c = MatrixLayout::ColumnMajor { rows: 2, cols: 3, leading_dim: 2 };
    assert_eq!(triangular_inverse_call(c, 6, Uplo::Upper, Diag::Unit), Err(LapackError::InvalidLayout));
}

#[test]
fn bunch_kaufman_pivots_may_be_negative() {
    let l = MatrixLayout::RowMajor { rows: 3, cols: 3, leading_dim: 3 };
    let expected = BkCall { n: 3, lda: 3, uplo: Uplo::Lower, pivot_len: 3, nrhs: 1, ldb: 3, conjugate_pass: true };
    assert_eq!(bk_call(l, 9, ScalarKind::Complex64, Uplo::Upper, None, 3), Ok(expected));
    assert_eq!(bk_call(l, 9, ScalarKind::Complex64, Uplo::Upper, Some(&[-2, -2, 3]), 3), Ok(expected));
    assert_eq!(
        bk_call(l, 9, ScalarKind::Complex64, Uplo::Upper, Some(&[0, 2, 3]), 3),
        Err(LapackError::InvalidValue(BK_PIVOT_ARG))
    );
    assert_eq!(
        bk_call(l, 9, ScalarKind::Complex64, Uplo::Upper, Some(&[-4, 2, 3]), 3),
        Err(LapackError::InvalidValue(6))
    );
    assert_eq!(bk_call(l, 9, ScalarKind::Real64, Uplo::Upper, None, 2), Err(LapackError::InvalidLayout));
}

#[test]
fn tridiagonal_lengths_and_solve() {
    assert_eq!(tridiagonal_call(2, 3, 2), Ok(TridiagonalCall { n: 3, du2_len: 1, pivot_len: 3 }));
    assert_eq!(tridiagonal_call(0, 1, 0), Ok(TridiagonalCall { n: 1, du2_len: 0, pivot_len: 1 }));
    assert_eq!(tridiagonal_call(0, 0, 0), Ok(TridiagonalCall { n: 0, du2_len: 0, pivot_len: 0 }));
    assert_eq!(tridiagonal_call(2, 3, 1), Err(LapackError::InvalidLayout));
    let rb = MatrixLayout::RowMajor { rows: 3, cols: 2, leading_dim: 2 };
    assert_eq!(
        tridiagonal_solve_call(3, Transpose::Transpose, &[2, 3, 3], rb, 6),
        Ok(TridiagonalSolveCall { trans: Transpose::Transpose, n: 3, nrhs: 2, ldb: 3, copy_b: true })
    );
    let cb = MatrixLayout::ColumnMajor { rows: 3, cols: 2, leading_dim: 5 };
    assert_eq!(
        tridiagonal_solve_call(3, Transpose::No, &[1, 2, 3], cb, 8),
        Ok(TridiagonalSolveCall { trans: Transpose::No, n: 3, nrhs: 2, ldb: 5, copy_b: false })
    );
    assert_eq!(
        tridiagonal_solve_call(3, Transpose::No, &[1, 2, 4], cb, 8),
        Err(LapackError::InvalidValue(TRIDIAGONAL_PIVOT_ARG))
    );
    assert_eq!(tridiagonal_solve_call(3, Transpose::No, &[1, 2, 3], cb, 7), Err(LapackError::InvalidLayout));
}

#[test]
fn svddc_row_major_thin() {
    let l = MatrixLayout::RowMajor { rows: 2, cols: 4, leading_dim: 4 };
    let call = svddc_call(l, 8, ScalarKind::Complex64, JobSvd::Thin).unwrap();
    assert_eq!(
        call,
        SvddcCall {
            m: 4,
            n: 2,
            lda: 4,
            k: 2,
            job: JobSvd::Thin,
            u_cols: 2,
            vt_rows: 2,
            ldu: 4,
            ldvt: 2,
            u_len: 8,
            vt_len: 4,
            rwork_len: 30,
            iwork_len: 16,
            swapped: true,
        }
    );
    let ((u, ul), (vt, vl)) = svddc_caller_factors(l, &call, vec![1; 8], vec![2; 4]);
    assert_eq!(u, vec![2; 4]);
    assert_eq!(ul, MatrixLayout::RowMajor { rows: 2, cols: 2, leading_dim: 2 });
    assert_eq!(vt, vec![1; 8]);
    assert_eq!(vl, MatrixLayout::RowMajor { rows: 2, cols: 4, leading_dim: 4 });
    assert_eq!(JobSvd::All.code(), 'A');
    assert_eq!(JobSvd::Thin.code(), 'S');
    assert_eq!(JobSvd::Skip.code(), 'N');
}

#[test]
fn svddc_column_major_no_vectors() {
    let l = MatrixLayout::ColumnMajor { rows: 3, cols: 2, leading_dim: 3 };
    let call = svddc_call(l, 6, ScalarKind::Complex32, JobSvd::Skip).unwrap();
    assert_eq!((call.u_len, call.vt_len, call.ldu, call.ldvt), (0, 0, 3, 1));
    assert_eq!((call.rwork_len, call.iwork_len, call.swapped), (14, 16, false));
    let real = svddc_call(l, 6, ScalarKind::Real64, JobSvd::All).unwrap();
    assert_eq!((real.u_len, real.vt_len, real.rwork_len), (9, 4, 0));
    assert_eq!(svddc_call(l, 5, ScalarKind::Real64, JobSvd::All), Err(LapackError::InvalidLayout));
}

#[test]
fn eig_row_major_asks_for_left_vectors() {
    let l = MatrixLayout::RowMajor { rows: 3, cols: 3, leading_dim: 3 };
    assert_eq!(
        eig_call(l, 9, ScalarKind::Complex64, true),
        Ok(EigCall {
            n: 3,
            lda: 3,
            job_vl: true,
            job_vr: false,
            ldvl: 3,
            ldvr: 1,
            vl_len: 9,
            vr_len: 0,
            eigenvalues_len: 3,
            rwork_len: 6,
            conjugate_vectors: true,
        })
    );
    let c = MatrixLayout::ColumnMajor { rows: 3, cols: 3, leading_dim: 4 };
    let call = eig_call(c, 11, ScalarKind::Real64, true).unwrap();
    assert_eq!((call.job_vl, call.job_vr, call.vr_len, call.conjugate_vectors, call.rwork_len), (false, true, 9, false, 0));
    assert_eq!(eig_call(c, 10, ScalarKind::Real64, true), Err(LapackError::InvalidLayout));
}

#[test]
fn least_squares_copies_row_major_operands() {
    let a = MatrixLayout::RowMajor { rows: 4, cols: 2, leading_dim: 3 };
    let b = MatrixLayout::RowMajor { rows: 4, cols: 1, leading_dim: 1 };
    assert_eq!(
        least_squares_call(a, 11, b, 4),
        Ok(LeastSquaresCall { m: 4, n: 2, nrhs: 1, lda: 4, ldb: 4, copy_a: true, copy_b: true, singular_values_len: 2 })
    );
    let ac = MatrixLayout::ColumnMajor { rows: 2, cols: 3, leading_dim: 2 };
    let bc = MatrixLayout::ColumnMajor { rows: 3, cols: 2, leading_dim: 3 };
    assert_eq!(
        least_squares_call(ac, 6, bc, 6),
        Ok(LeastSquaresCall { m: 2, n: 3, nrhs: 2, lda: 2, ldb: 3, copy_a: false, copy_b: false, singular_values_len: 2 })
    );
    let short = MatrixLayout::ColumnMajor { rows: 2, cols: 2, leading_dim: 2 };
    assert_eq!(least_squares_call(ac, 6, short, 4), Err(LapackError::InvalidLayout));
}
