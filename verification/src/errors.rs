//! The failures an operation can end in.

use vstd::prelude::*;

verus! {

/// Why an operation was refused or did not complete. Every one of them ends
/// the operation; none is retried.
#[derive(Clone, Copy, Debug, PartialEq, Eq, Structural)]
pub enum CustomError {
    /// A royalty rate above 10000 basis points.
    InvalidBps,
    /// An unlock time that is not strictly positive.
    InvalidUnlockTs,
    /// Unlock asked for before the unlock time.
    NotYetUnlocked,
    /// The policy record governs another collection than the one presented.
    StateCollectionMismatch,
    /// The policy record names another authority than the one presented.
    BadAuthority,
    /// The registry program presented is not the expected one.
    InvalidRegistryProgram,
    /// No policy record exists for the collection.
    NotFound,
    /// A policy record already exists for the collection.
    DuplicateRecord,
    /// The registry refused a call; the payload is its own error code.
    RegistryFailure(u64),
}

impl CustomError {
    /// A short description of the failure.
    pub fn message(&self) -> (m: &'static str)
        ensures
            m@ == Self::message_of(*self),
    {
        match self {
            CustomError::InvalidBps => "Invalid basis points",
            CustomError::InvalidUnlockTs => "Invalid unlock timestamp",
            CustomError::NotYetUnlocked => "Current time is before unlock",
            CustomError::StateCollectionMismatch => "State does not match collection",
            CustomError::BadAuthority => "Update authority mismatch",
            CustomError::InvalidRegistryProgram => "Invalid Metaplex Core program ID",
            CustomError::NotFound => "No policy record for this collection",
            CustomError::DuplicateRecord => "Policy record already exists",
            CustomError::RegistryFailure(_) => "Registry call failed",
        }
    }

    /// The description that belongs to each failure.
    pub open spec fn message_of(e: CustomError) -> Seq<char> {
        match e {
            CustomError::InvalidBps => "Invalid basis points"@,
            CustomError::InvalidUnlockTs => "Invalid unlock timestamp"@,
            CustomError::NotYetUnlocked => "Current time is before unlock"@,
            CustomError::StateCollectionMismatch => "State does not match collection"@,
            CustomError::BadAuthority => "Update authority mismatch"@,
            CustomError::InvalidRegistryProgram => "Invalid Metaplex Core program ID"@,
            CustomError::NotFound => "No policy record for this collection"@,
            CustomError::DuplicateRecord => "Policy record already exists"@,
            CustomError::RegistryFailure(_) => "Registry call failed"@,
        }
    }
}

} // verus!
