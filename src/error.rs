//! Typed failures of the native routines and of the checks made before a call.
use vstd::prelude::*;

verus! {

/// The closed set of failures an operation can report.
#[derive(Clone, Copy, Debug, PartialEq, Eq, Structural)]
pub enum LapackError {
    /// A dimension or a leading dimension breaks its precondition, or a buffer
    /// is too short for the layout that describes it. No native call was made.
    InvalidLayout,
    /// The native routine reports that its argument at this 1-based position is illegal.
    InvalidValue(u32),
    /// An iterative routine left this many elements unconverged.
    NotConverged(u32),
    /// A factorization met an exactly singular pivot at this 1-based index.
    SingularMatrix(u32),
    /// The workspace could not be sized or allocated.
    MemoryAllocation,
}

/// What a positive status code of a native routine reports.
#[derive(Clone, Copy, Debug, PartialEq, Eq, Structural)]
pub enum PositiveStatus {
    /// The count of elements an iterative algorithm left unconverged.
    NotConverged,
    /// The 1-based index of a singular pivot.
    Singular,
}

/// The typed outcome of a native status code: 0 is success, `-p` flags the
/// argument at position `p`, and a positive code means what `meaning` says.
pub open spec fn status_outcome(status: i32, meaning: PositiveStatus) -> Result<(), LapackError> {
    if status == 0 {
        Ok(())
    } else if status < 0 {
        Err(LapackError::InvalidValue((-status) as u32))
    } else {
        match meaning {
            PositiveStatus::NotConverged => Err(LapackError::NotConverged(status as u32)),
            PositiveStatus::Singular => Err(LapackError::SingularMatrix(status as u32)),
        }
    }
}

/// Classifies the status code that a native routine left in its `info` argument.
pub fn check_status(status: i32, meaning: PositiveStatus) -> (r: Result<(), LapackError>)
    ensures
        r == status_outcome(status, meaning),
{
    if status == 0 {
        Ok(())
    } else if status < 0 {
        let position: i64 = 0i64 - status as i64;
        Err(LapackError::InvalidValue(position as u32))
    } else {
        match meaning {
            PositiveStatus::NotConverged => Err(LapackError::NotConverged(status as u32)),
            PositiveStatus::Singular => Err(LapackError::SingularMatrix(status as u32)),
        }
    }
}

} // verus!
