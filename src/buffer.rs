//! Buffers that receive native output, and the sizing of native workspaces.
use vstd::prelude::*;
use crate::error::{check_status, status_outcome, LapackError, PositiveStatus};

verus! {

/// A buffer reserved for a native routine to fill. Its elements come out only
/// through `into_filled`, and only when the routine reported success; the
/// slice that `native_target` lends is for the native call to write into and
/// for nothing else to read.
pub struct OutputBuffer<T> {
    data: Vec<T>,
}

impl<T: Copy> OutputBuffer<T> {
    /// What the buffer holds now; nothing outside may read it.
    pub closed spec fn contents(&self) -> Seq<T> {
        self.data@
    }

    /// Reserves `n` elements, each set to `filler` until the routine writes it.
    pub fn reserve(n: usize, filler: T) -> (r: Self)
        ensures
            r.contents().len() == n,
            forall|i: int| 0 <= i < n ==> #[trigger] r.contents()[i] == filler,
    {
        let mut data: Vec<T> = Vec::with_capacity(n);
        let mut i: usize = 0;
        while i < n
            invariant
                i <= n,
                data@.len() == i,
                forall|t: int| 0 <= t < i ==> #[trigger] data@[t] == filler,
            decreases n - i,
        {
            data.push(filler);
            i = i + 1;
        }
        OutputBuffer { data }
    }

    pub fn len(&self) -> (r: usize)
        ensures
            r == self.contents().len(),
    {
        self.data.len()
    }

    /// The elements for the native routine to write, and only to write.
    pub fn native_target(&mut self) -> (r: &mut [T])
        ensures
            r@ == old(self).contents(),
            final(self).contents() == final(r)@,
    {
        self.data.as_mut_slice()
    }

    /// The filled elements when the routine's status says success; otherwise
    /// the whole buffer is dropped and only the typed failure remains.
    pub fn into_filled(self, status: i32, meaning: PositiveStatus) -> (r: Result<Vec<T>, LapackError>)
        ensures
            status == 0 ==> r is Ok && r->Ok_0@ == self.contents(),
            status != 0 ==> r == Err::<Vec<T>, LapackError>(status_outcome(status, meaning)->Err_0),
    {
        match check_status(status, meaning) {
            Ok(()) => Ok(self.data),
            Err(e) => Err(e),
        }
    }
}

/// The largest workspace a native routine can be told of: its length
/// argument is a 32-bit integer.
pub const MAX_WORKSPACE: usize = 0x7fff_ffff;

/// The workspace length to allocate after a size query, from the query's
/// status and the size it suggested in its first workspace slot (`None` when
/// that value is no non-negative integer). A status that is not success is
/// reported as such; a suggestion that cannot be had is `MemoryAllocation`.
/// A length of at least 1 is always asked for.
pub open spec fn workspace_outcome(status: i32, suggested: Option<usize>, meaning: PositiveStatus) -> Result<usize, LapackError> {
    if status != 0 {
        Err(status_outcome(status, meaning)->Err_0)
    } else {
        match suggested {
            None => Err(LapackError::MemoryAllocation),
            Some(n) => if n > MAX_WORKSPACE {
                Err(LapackError::MemoryAllocation)
            } else if n == 0 {
                Ok(1usize)
            } else {
                Ok(n)
            },
        }
    }
}

/// Sizes a workspace from the answer of a native size query.
pub fn workspace_len(status: i32, suggested: Option<usize>, meaning: PositiveStatus) -> (r: Result<usize, LapackError>)
    ensures
        r == workspace_outcome(status, suggested, meaning),
        r is Ok ==> 1 <= r->Ok_0 <= MAX_WORKSPACE,
{
    match check_status(status, meaning) {
        Err(e) => Err(e),
        Ok(()) => match suggested {
            None => Err(LapackError::MemoryAllocation),
            Some(n) => if n > MAX_WORKSPACE {
                Err(LapackError::MemoryAllocation)
            } else if n == 0 {
                Ok(1)
            } else {
                Ok(n)
            },
        },
    }
}

} // verus!
