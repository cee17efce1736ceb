//! Carrying out the registry calls of an operation.
//!
//! The calls that an operation returns are issued one after the other, and
//! the first one that the registry refuses ends the operation: the calls
//! before it stand, the calls after it are not issued.

use crate::errors::CustomError;
use vstd::prelude::*;

verus! {

/// What to do next with the calls of an operation.
#[derive(Clone, Copy, Debug, PartialEq, Eq, Structural)]
pub enum Progress {
    /// Issue the call at this position.
    Issue(usize),
    /// Every call was accepted: the operation is done.
    Complete,
    /// The operation has failed; no further call is issued.
    Failed(CustomError),
}

/// What follows the answer `outcome` of the registry to the call at `index`
/// among `total` calls.
pub open spec fn progress_after(total: usize, index: usize, outcome: Result<(), u64>) -> Progress {
    match outcome {
        Err(code) => Progress::Failed(CustomError::RegistryFailure(code)),
        Ok(_) => if index + 1 < total {
            Progress::Issue((index + 1) as usize)
        } else {
            Progress::Complete
        },
    }
}

/// Where an operation with `total` calls begins.
pub fn begin(total: usize) -> (p: Progress)
    ensures
        p == if total > 0 {
            Progress::Issue(0)
        } else {
            Progress::Complete
        },
{
    if total > 0 {
        Progress::Issue(0)
    } else {
        Progress::Complete
    }
}

/// Decides what follows the registry's answer to the call at `index` among
/// `total` calls: a refusal ends the operation with `RegistryFailure` and the
/// registry's code; an acceptance leads to the next call or, after the last,
/// to the end.
pub fn advance(total: usize, index: usize, outcome: Result<(), u64>) -> (p: Progress)
    ensures
        p == progress_after(total, index, outcome),
{
    match outcome {
        Err(code) => Progress::Failed(CustomError::RegistryFailure(code)),
        Ok(_) => {
            if total > 0 && index < total - 1 {
                Progress::Issue(index + 1)
            } else {
                Progress::Complete
            }
        },
    }
}

} // verus!
