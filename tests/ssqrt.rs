//! Symmetric square root through the library's eigenproblem call. The tests
//! link no native library, so a Jacobi kernel stands in for the native
//! routine: it reads only the triangle the library names on the native view
//! and leaves the eigenvectors as that view's columns.
use lax::buffer::OutputBuffer;
use lax::eigh::{eigenvector_layout, eigh_call, EighCall};
use lax::error::PositiveStatus;
use lax::flags::{ScalarKind, Uplo};
use lax::layout::MatrixLayout;

type Mat = Vec<Vec<f64>>;

struct Normal {
    state: u64,
}

impl Normal {
    fn new(seed: u64) -> Normal {
        Normal { state: seed.wrapping_mul(6364136223846793005).wrapping_add(1442695040888963407) }
    }

    fn uniform(&mut self) -> f64 {
        self.state ^= self.state << 13;
        self.state ^= self.state >> 7;
        self.state ^= self.state << 17;
        ((self.state >> 11) as f64 + 0.5) / (1u64 << 53) as f64
    }

    fn sample(&mut self) -> f64 {
        let u = self.uniform();
        let v = self.uniform();
        (-2.0 * u.ln()).sqrt() * (2.0 * std::f64::consts::PI * v).cos()
    }
}

fn random(rows: usize, cols: usize, seed: u64) -> Mat {
    let mut g = Normal::new(seed);
    (0..rows).map(|_| (0..cols).map(|_| g.sample()).collect()).collect()
}

fn dot(a: &Mat, b: &Mat) -> Mat {
    (0..a.len())
        .map(|i| (0..b[0].len()).map(|j| (0..b.len()).map(|p| a[i][p] * b[p][j]).sum()).collect())
        .collect()
}

fn t(a: &Mat) -> Mat {
    (0..a[0].len()).map(|j| (0..a.len()).map(|i| a[i][j]).collect()).collect()
}

fn all_close_l2(test: &Mat, truth: &Mat, rtol: f64) -> Result<f64, f64> {
    let mut diff = 0.0;
    let mut norm = 0.0;
    for (x, y) in test.iter().zip(truth.iter()) {
        for (p, q) in x.iter().zip(y.iter()) {
            diff += (p - q) * (p - q);
            norm += q * q;
        }
    }
    let tol = (diff / norm).sqrt();
    if tol < rtol { Ok(tol) } else { Err(tol) }
}

fn offset(l: &MatrixLayout, i: usize, j: usize) -> usize {
    let ld = l.leading_dim() as usize;
    if l.is_row_major() { i * ld + j } else { i + j * ld }
}

/// Stores `a` in the given order, with the triangle that `uplo` leaves out
/// spoiled so that a read of the wrong triangle shows.
fn store(a: &Mat, row_major: bool, uplo: Uplo) -> (MatrixLayout, Vec<f64>) {
    let n = a.len();
    let l = if row_major {
        MatrixLayout::row_major_checked(n as i32, n as i32, n as i32).unwrap()
    } else {
        MatrixLayout::column_major_checked(n as i32, n as i32, n as i32).unwrap()
    };
    let mut buf = vec![0.0; n * n];
    for i in 0..n {
        for j in 0..n {
            let kept = match uplo {
                Uplo::Upper => i <= j,
                Uplo::Lower => i >= j,
            };
            buf[offset(&l, i, j)] = if kept { a[i][j] } else { 1.0e6 };
        }
    }
    (l, buf)
}

fn native_eigh(call: &EighCall, a: &mut [f64], w: &mut [f64]) -> i32 {
    let n = call.n as usize;
    let lda = call.lda as usize;
    let mut m = vec![vec![0.0; n]; n];
    for i in 0..n {
        for j in 0..n {
            let (p, q) = match call.uplo {
                Uplo::Upper => (i.min(j), i.max(j)),
                Uplo::Lower => (i.max(j), i.min(j)),
            };
            m[i][j] = a[p + q * lda];
        }
    }
    let mut v: Mat = (0..n).map(|i| (0..n).map(|j| if i == j { 1.0 } else { 0.0 }).collect()).collect();
    for _ in 0..100 {
        let off: f64 = (0..n).flat_map(|i| (0..n).map(move |j| (i, j))).filter(|(i, j)| i != j).map(|(i, j)| m[i][j] * m[i][j]).sum();
        if off < 1e-30 {
            break;
        }
        for p in 0..n {
            for q in (p + 1)..n {
                if m[p][q].abs() < 1e-300 {
                    continue;
                }
                let theta = (m[q][q] - m[p][p]) / (2.0 * m[p][q]);
                let tt = theta.signum() / (theta.abs() + (theta * theta + 1.0).sqrt());
                let tt = if theta == 0.0 { 1.0 } else { tt };
                let c = 1.0 / (tt * tt + 1.0).sqrt();
                let s = tt * c;
                for k in 0..n {
                    let (mkp, mkq) = (m[k][p], m[k][q]);
                    m[k][p] = c * mkp - s * mkq;
                    m[k][q] = s * mkp + c * mkq;
                }
                for k in 0..n {
                    let (mpk, mqk) = (m[p][k], m[q][k]);
                    m[p][k] = c * mpk - s * mqk;
                    m[q][k] = s * mpk + c * mqk;
                }
                for k in 0..n {
                    let (vkp, vkq) = (v[k][p], v[k][q]);
                    v[k][p] = c * vkp - s * vkq;
                    v[k][q] = s * vkp + c * vkq;
                }
            }
        }
    }
    for i in 0..n {
        w[i] = m[i][i];
        if call.vectors {
            for k in 0..n {
                a[k + i * lda] = v[k][i];
            }
        }
    }
    0
}

/// `V diag(sqrt(w)) Vᵗ` from the library's eigenproblem call.
fn ssqrt(a: &Mat, row_major: bool, uplo: Uplo) -> Mat {
    let (layout, mut buf) = store(a, row_major, uplo);
    let call = eigh_call(layout, buf.len(), ScalarKind::Real64, uplo, true).unwrap();
    let mut w: OutputBuffer<f64> = OutputBuffer::reserve(call.eigenvalues_len, 0.0);
    let info = native_eigh(&call, &mut buf, w.native_target());
    let w = w.into_filled(info, PositiveStatus::NotConverged).unwrap();
    let vl = eigenvector_layout(layout);
    let n = a.len();
    let v: Mat = (0..n).map(|i| (0..n).map(|j| buf[offset(&vl, i, j)]).collect()).collect();
    let d: Mat = (0..n).map(|i| (0..n).map(|j| if i == j { w[i].sqrt() } else { 0.0 }).collect()).collect();
    dot(&dot(&v, &d), &t(&v))
}

#[test]
fn ssqrt_symmetric_random() {
    let mut a = random(3, 3, 21);
    a = dot(&a, &t(&a));
    let ar = ssqrt(&a, true, Uplo::Upper);
    all_close_l2(&t(&ar.clone()), &ar, 1e-7).unwrap();
}

#[test]
fn ssqrt_symmetric_random_t() {
    let mut a = random(3, 3, 22);
    a = t(&dot(&a, &t(&a)));
    let ar = ssqrt(&a, false, Uplo::Upper);
    all_close_l2(&t(&ar.clone()), &ar, 1e-7).unwrap();
}

#[test]
fn ssqrt_sqrt_random() {
    let mut a = random(3, 3, 23);
    a = dot(&a, &t(&a));
    let ar = ssqrt(&a, true, Uplo::Upper);
    all_close_l2(&t(&ar.clone()), &ar, 1e-7).unwrap();
}

#[test]
fn ssqrt_sqrt_random_t() {
    let mut a = random(3, 3, 24);
    a = t(&dot(&a, &t(&a)));
    let ar = ssqrt(&a, false, Uplo::Upper);
    all_close_l2(&t(&ar.clone()), &ar, 1e-7).unwrap();
}

#[test]
fn ssqrt_squares_back_in_both_orders_and_triangles() {
    let mut a = random(4, 4, 25);
    a = dot(&a, &t(&a));
    for row_major in [true, false] {
        for uplo in [Uplo::Upper, Uplo::Lower] {
            let s = ssqrt(&a, row_major, uplo);
            all_close_l2(&dot(&s, &s), &a, 1e-7).unwrap();
            all_close_l2(&t(&s), &s, 1e-7).unwrap();
        }
    }
}
