//! The checks that every operation runs before it asks anything of the
//! registry.

use crate::address::Address;
use crate::errors::CustomError;
use crate::state::CollectionState;
use vstd::prelude::*;

verus! {

/// The highest royalty rate: 100%, in basis points.
pub const MAX_BPS: u16 = 10000;

/// The failure, if any, of presenting `collection` and `authority` against
/// `record`: the collection is compared first.
pub open spec fn binding_error(
    record: CollectionState,
    collection: Address,
    authority: Address,
) -> Option<CustomError> {
    if record.collection != collection {
        Some(CustomError::StateCollectionMismatch)
    } else if record.update_authority != authority {
        Some(CustomError::BadAuthority)
    } else {
        None
    }
}

/// Accepts a royalty rate of at most 10000 basis points.
pub fn validate_bps(bps: u16) -> (r: Result<(), CustomError>)
    ensures
        bps <= 10000 ==> r == Ok::<(), CustomError>(()),
        bps > 10000 ==> r == Err::<(), CustomError>(CustomError::InvalidBps),
{
    if bps <= MAX_BPS {
        Ok(())
    } else {
        Err(CustomError::InvalidBps)
    }
}

/// Accepts an unlock time that is strictly positive.
pub fn validate_unlock_ts(unlock_ts: i64) -> (r: Result<(), CustomError>)
    ensures
        unlock_ts > 0 ==> r == Ok::<(), CustomError>(()),
        unlock_ts <= 0 ==> r == Err::<(), CustomError>(CustomError::InvalidUnlockTs),
{
    if unlock_ts > 0 {
        Ok(())
    } else {
        Err(CustomError::InvalidUnlockTs)
    }
}

/// Accepts a request whose collection and authority are those of `record`.
/// A foreign collection is reported before a foreign authority.
pub fn validate_binding(record: &CollectionState, collection: &Address, authority: &Address) -> (r:
    Result<(), CustomError>)
    ensures
        r == match binding_error(*record, *collection, *authority) {
            Some(e) => Err::<(), CustomError>(e),
            None => Ok::<(), CustomError>(()),
        },
{
    if record.collection != *collection {
        Err(CustomError::StateCollectionMismatch)
    } else if record.update_authority != *authority {
        Err(CustomError::BadAuthority)
    } else {
        Ok(())
    }
}

/// Accepts a time `now` at or after the record's unlock time.
pub fn validate_time_reached(record: &CollectionState, now: i64) -> (r: Result<(), CustomError>)
    ensures
        now >= record.unlock_ts ==> r == Ok::<(), CustomError>(()),
        now < record.unlock_ts ==> r == Err::<(), CustomError>(CustomError::NotYetUnlocked),
{
    if now >= record.unlock_ts {
        Ok(())
    } else {
        Err(CustomError::NotYetUnlocked)
    }
}

/// Accepts the registry program presented only if it is the expected one.
pub fn validate_registry_identity(provided: &Address, expected: &Address) -> (r: Result<
    (),
    CustomError,
>)
    ensures
        *provided == *expected ==> r == Ok::<(), CustomError>(()),
        *provided != *expected ==> r == Err::<(), CustomError>(
            CustomError::InvalidRegistryProgram,
        ),
{
    if *provided == *expected {
        Ok(())
    } else {
        Err(CustomError::InvalidRegistryProgram)
    }
}

} // verus!
