//! LU factorization and solve through the library. The tests link no native
//! library, so a partial-pivoting kernel on the native column-major view
//! stands in for the native routines.
use lax::buffer::OutputBuffer;
use lax::error::LapackError;
use lax::flags::{ScalarKind, Transpose};
use lax::layout::MatrixLayout;
use lax::solve::{finish_lu, lu_call, solve_call, LuCall, SolveCall};

fn native_getrf(call: &LuCall, a: &mut [f64], ipiv: &mut [i32]) -> i32 {
    let (m, n, lda) = (call.m as usize, call.n as usize, call.lda as usize);
    let mut info = 0;
    for j in 0..call.pivot_len {
        let p = (j..m).max_by(|x, y| a[x + j * lda].abs().total_cmp(&a[y + j * lda].abs())).unwrap();
        ipiv[j] = p as i32 + 1;
        if a[p + j * lda] == 0.0 {
            if info == 0 {
                info = j as i32 + 1;
            }
            continue;
        }
        for c in 0..n {
            a.swap(j + c * lda, p + c * lda);
        }
        for i in (j + 1)..m {
            a[i + j * lda] /= a[j + j * lda];
            for c in (j + 1)..n {
                a[i + c * lda] -= a[i + j * lda] * a[j + c * lda];
            }
        }
    }
    info
}

fn native_getrs(call: &SolveCall, a: &[f64], ipiv: &[i32], b: &mut [f64]) -> i32 {
    let (n, lda) = (call.n as usize, call.lda as usize);
    let at = |i: usize, j: usize| a[i + j * lda];
    match call.op.trans {
        Transpose::No => {
            for i in 0..n {
                b.swap(i, ipiv[i] as usize - 1);
            }
            for i in 0..n {
                for j in 0..i {
                    b[i] -= at(i, j) * b[j];
                }
            }
            for i in (0..n).rev() {
                for j in (i + 1)..n {
                    b[i] -= at(i, j) * b[j];
                }
                b[i] /= at(i, i);
            }
        }
        _ => {
            for i in 0..n {
                for j in 0..i {
                    b[i] -= at(j, i) * b[j];
                }
                b[i] /= at(i, i);
            }
            for i in (0..n).rev() {
                for j in (i + 1)..n {
                    b[i] -= at(j, i) * b[j];
                }
            }
            for i in (0..n).rev() {
                b.swap(i, ipiv[i] as usize - 1);
            }
        }
    }
    0
}

fn lu(layout: MatrixLayout, a: &mut [f64]) -> Result<Vec<i32>, LapackError> {
    let call = lu_call(layout, a.len())?;
    let mut ipiv: OutputBuffer<i32> = OutputBuffer::reserve(call.pivot_len, 0);
    let info = native_getrf(&call, a, ipiv.native_target());
    finish_lu(ipiv, info)
}

fn solve(layout: MatrixLayout, t: Transpose, a: &[f64], pivot: &[i32], b: &mut [f64]) -> Result<(), LapackError> {
    let call = solve_call(layout, t, ScalarKind::Real64, a.len(), pivot, b.len())?;
    assert_eq!(native_getrs(&call, a, pivot, b), 0);
    Ok(())
}

#[test]
fn lu_solve_two_by_two_exact() {
    let layout = MatrixLayout::ColumnMajor { rows: 2, cols: 2, leading_dim: 2 };
    let mut a = vec![1.0, 3.0, 2.0, 4.0];
    let mut b = vec![1.0, 2.0];
    let pivot = lu(layout, &mut a).unwrap();
    solve(layout, Transpose::No, &a, &pivot, &mut b).unwrap();
    assert!((b[0] - 0.0).abs() < 1e-7);
    assert!((b[1] - 0.5).abs() < 1e-7);
}

#[test]
fn lu_solve_round_trip_in_both_orders_and_operators() {
    let a = [[2.0, -1.0, 0.5], [1.0, 3.0, -2.0], [0.25, 4.0, 1.0]];
    let b = [1.0, -2.0, 3.0];
    for row_major in [true, false] {
        for t in [Transpose::No, Transpose::Transpose, Transpose::Hermite] {
            let layout = if row_major {
                MatrixLayout::RowMajor { rows: 3, cols: 3, leading_dim: 3 }
            } else {
                MatrixLayout::ColumnMajor { rows: 3, cols: 3, leading_dim: 3 }
            };
            let mut buf = vec![0.0; 9];
            for i in 0..3 {
                for j in 0..3 {
                    buf[if row_major { i * 3 + j } else { i + j * 3 }] = a[i][j];
                }
            }
            let pivot = lu(layout, &mut buf).unwrap();
            let mut x = b.to_vec();
            solve(layout, t, &buf, &pivot, &mut x).unwrap();
            for i in 0..3 {
                let ax: f64 = (0..3)
                    .map(|j| if t == Transpose::No { a[i][j] * x[j] } else { a[j][i] * x[j] })
                    .sum();
                assert!((ax - b[i]).abs() < 1e-7);
            }
        }
    }
}

#[test]
fn lu_of_zero_row_is_singular() {
    let layout = MatrixLayout::RowMajor { rows: 2, cols: 2, leading_dim: 2 };
    let mut a = vec![1.0, 2.0, 0.0, 0.0];
    assert_eq!(lu(layout, &mut a), Err(LapackError::SingularMatrix(2)));
}
