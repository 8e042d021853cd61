//! Layout, transpose and status algebra for calling a column-major native
//! dense linear algebra library on flat buffers of any of four scalar kinds.
//!
//! - `layout`: how a matrix lies in a buffer, and the native view of it.
//! - `flags`: scalar kinds, operator/triangle/norm flags and how they compose
//!   with the implicit transpose of a row-major buffer.
//! - `error`: the typed failures and the reading of native status codes.
//! - `buffer`: output buffers released only on success; workspace sizing.
//! - `copy`: copies between a caller's layout and packed column-major.
//! - `solve`, `inverse`, `solveh`, `cholesky`, `tridiagonal`, `qr`, `svd`,
//!   `svddc`, `least_squares`, `eig`, `eigh`, `norm`: for each operation, the
//!   checked native arguments for a layout and the assembly of results.
use vstd::prelude::*;

pub mod buffer;
pub mod cholesky;
pub mod copy;
pub mod eig;
pub mod eigh;
pub mod error;
pub mod flags;
pub mod inverse;
pub mod layout;
pub mod least_squares;
pub mod norm;
pub mod qr;
pub mod solve;
pub mod solveh;
pub mod svd;
pub mod svddc;
pub mod tridiagonal;

verus! {

/// The 1-based row interchanges of an LU factorization, one per pivot.
pub type Pivot = Vec<i32>;

} // verus!
