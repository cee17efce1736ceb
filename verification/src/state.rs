//! The policy record of a collection.

use crate::address::Address;
use vstd::prelude::*;

verus! {

/// The time-lock policy of one collection. It is written once, when the
/// collection is created, and never changed.
#[derive(Clone, Copy, Debug, PartialEq, Eq)]
pub struct CollectionState {
    /// The collection this record governs.
    pub collection: Address,
    /// The time from which unlock is permitted.
    pub unlock_ts: i64,
    /// Royalty rate, in basis points, before unlock.
    pub pre_unlock_bps: u16,
    /// Royalty rate, in basis points, after unlock.
    pub post_unlock_bps: u16,
    /// Who may mint into the collection, unlock and change plugins.
    pub update_authority: Address,
}

impl CollectionState {
    /// Both rates are at most 10000 basis points and the unlock time is
    /// strictly positive.
    pub open spec fn wf(&self) -> bool {
        &&& self.pre_unlock_bps <= 10000
        &&& self.post_unlock_bps <= 10000
        &&& self.unlock_ts > 0
    }
}

} // verus!
