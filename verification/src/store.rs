//! The policy store: one record per collection, written once.

use crate::address::Address;
use crate::errors::CustomError;
use crate::instructions::{
    add_plugin, create_collection_with_state, create_error, creates_collection,
    mint_locked_asset, mints_locked, request_error, unlock_asset, unlock_error, unlocks,
    AddPlugin, CreateCollectionWithState, MintLockedAsset, UnlockAsset,
};
use crate::registry::{Plugin, RegistryCall};
use crate::state::CollectionState;
use vstd::prelude::*;

verus! {

/// The policy records of all collections, found by the collection's
/// identity. A record is never changed or removed once it is in the store.
pub struct PolicyStore {
    records: Vec<CollectionState>,
}

/// What creating a record with these terms gives in a store that holds
/// `records`: a collection that has a record is refused first, then the
/// rates are checked, then the unlock time.
pub open spec fn create_result(
    records: Map<Address, CollectionState>,
    collection: Address,
    unlock_ts: i64,
    pre_unlock_bps: u16,
    post_unlock_bps: u16,
    update_authority: Address,
) -> Result<CollectionState, CustomError> {
    if records.contains_key(collection) {
        Err(CustomError::DuplicateRecord)
    } else if pre_unlock_bps > 10000 || post_unlock_bps > 10000 {
        Err(CustomError::InvalidBps)
    } else if unlock_ts <= 0 {
        Err(CustomError::InvalidUnlockTs)
    } else {
        Ok(
            CollectionState {
                collection,
                unlock_ts,
                pre_unlock_bps,
                post_unlock_bps,
                update_authority,
            },
        )
    }
}

/// What looking `collection` up gives in a store that holds `records`.
pub open spec fn lookup_result(
    records: Map<Address, CollectionState>,
    collection: Address,
) -> Result<CollectionState, CustomError> {
    if records.contains_key(collection) {
        Ok(records[collection])
    } else {
        Err(CustomError::NotFound)
    }
}

/// Why initializing the policy of a collection is refused, if it is, in a
/// store that holds `records`: a collection that has a record is refused
/// first, then the terms are checked.
pub open spec fn initialize_error(
    records: Map<Address, CollectionState>,
    ctx: CreateCollectionWithState,
    registry_id: Address,
    unlock_ts: i64,
    pre_unlock_bps: u16,
    post_unlock_bps: u16,
) -> Option<CustomError> {
    if records.contains_key(ctx.collection) {
        Some(CustomError::DuplicateRecord)
    } else {
        create_error(ctx, registry_id, unlock_ts, pre_unlock_bps, post_unlock_bps)
    }
}

/// Why a request on `collection` by `authority` is refused, if it is, in a
/// store that holds `records`: the record must exist, then bind the request,
/// then the registry program is checked.
pub open spec fn stored_request_error(
    records: Map<Address, CollectionState>,
    collection: Address,
    authority: Address,
    mpl_core_program: Address,
    registry_id: Address,
) -> Option<CustomError> {
    if !records.contains_key(collection) {
        Some(CustomError::NotFound)
    } else {
        request_error(records[collection], collection, authority, mpl_core_program, registry_id)
    }
}

/// Why an unlock at time `now` is refused, if it is, in a store that holds
/// `records`: the record must exist, then bind the request, then the time
/// must have come, then the registry program is checked.
pub open spec fn stored_unlock_error(
    records: Map<Address, CollectionState>,
    ctx: UnlockAsset,
    registry_id: Address,
    now: i64,
) -> Option<CustomError> {
    if !records.contains_key(ctx.collection) {
        Some(CustomError::NotFound)
    } else {
        unlock_error(ctx, records[ctx.collection], registry_id, now)
    }
}

impl PolicyStore {
    /// The record at `i` is the one of `collection`.
    spec fn holds_at(&self, i: int, collection: Address) -> bool {
        0 <= i < self.records@.len() && self.records@[i].collection == collection
    }

    /// The store as a map from each collection that has a record to its
    /// record.
    pub closed spec fn view(&self) -> Map<Address, CollectionState> {
        Map::new(
            |c: Address| exists|i: int| self.holds_at(i, c),
            |c: Address| self.records@[choose|i: int| self.holds_at(i, c)],
        )
    }

    /// No collection has two records, and every record is valid.
    pub closed spec fn wf(&self) -> bool {
        &&& forall|i: int| 0 <= i < self.records@.len() ==> (#[trigger] self.records@[i]).wf()
        &&& forall|i: int, j: int|
            0 <= i < j < self.records@.len() ==> (#[trigger] self.records@[i]).collection != (
            #[trigger] self.records@[j]).collection
    }

    /// In a well-formed store each record is valid and stands under its own
    /// collection.
    pub proof fn lemma_records_valid(&self, collection: Address)
        requires
            self.wf(),
            self@.contains_key(collection),
        ensures
            self@[collection].wf(),
            self@[collection].collection == collection,
    {
        let i = choose|i: int| self.holds_at(i, collection);
        assert(self.holds_at(i, collection));
    }

    /// The record at `i` is what the store holds for its collection.
    proof fn lemma_view_at(&self, i: int)
        requires
            self.wf(),
            0 <= i < self.records@.len(),
        ensures
            self@.contains_key(self.records@[i].collection),
            self@[self.records@[i].collection] == self.records@[i],
    {
        let c = self.records@[i].collection;
        assert(self.holds_at(i, c));
        let k = choose|k: int| self.holds_at(k, c);
        assert(self.holds_at(k, c));
        assert(k == i) by {
            if k < i {
                assert(self.records@[k].collection != self.records@[i].collection);
            } else if i < k {
                assert(self.records@[i].collection != self.records@[k].collection);
            }
        }
    }

    /// An empty store.
    pub fn new() -> (store: PolicyStore)
        ensures
            store.wf(),
            store@ == Map::<Address, CollectionState>::empty(),
    {
        let store = PolicyStore { records: Vec::new() };
        proof {
            assert forall|c: Address| !store@.contains_key(c) by {
                if store@.contains_key(c) {
                    let i = choose|i: int| store.holds_at(i, c);
                    assert(store.holds_at(i, c));
                }
            }
            assert(store@ =~= Map::<Address, CollectionState>::empty());
        }
        store
    }

    /// The record of `collection`, or `NotFound` if it has none.
    pub fn lookup(&self, collection: &Address) -> (r: Result<CollectionState, CustomError>)
        requires
            self.wf(),
        ensures
            r == lookup_result(self@, *collection),
            r matches Ok(record) ==> record.wf() && record.collection == *collection,
    {
        let mut i: usize = 0;
        while i < self.records.len()
            invariant
                self.wf(),
                i <= self.records@.len(),
                forall|j: int| 0 <= j < i ==> self.records@[j].collection != *collection,
            decreases self.records@.len() - i,
        {
            if self.records[i].collection == *collection {
                proof {
                    self.lemma_view_at(i as int);
                }
                return Ok(self.records[i]);
            }
            i += 1;
        }
        proof {
            if self@.contains_key(*collection) {
                let k = choose|k: int| self.holds_at(k, *collection);
                assert(self.holds_at(k, *collection));
            }
        }
        Err(CustomError::NotFound)
    }

    /// Stores the policy of a new collection and returns the record. A
    /// collection that has a record already is refused with
    /// `DuplicateRecord`, and invalid terms with their own failure; the store
    /// is then left as it was.
    pub fn create(
        &mut self,
        collection: Address,
        unlock_ts: i64,
        pre_unlock_bps: u16,
        post_unlock_bps: u16,
        update_authority: Address,
    ) -> (r: Result<CollectionState, CustomError>)
        requires
            old(self).wf(),
        ensures
            final(self).wf(),
            r == create_result(
                old(self)@,
                collection,
                unlock_ts,
                pre_unlock_bps,
                post_unlock_bps,
                update_authority,
            ),
            final(self)@ == match r {
                Ok(record) => old(self)@.insert(collection, record),
                Err(_) => old(self)@,
            },
    {
        if self.lookup(&collection).is_ok() {
            return Err(CustomError::DuplicateRecord);
        }
        if pre_unlock_bps > 10000 || post_unlock_bps > 10000 {
            return Err(CustomError::InvalidBps);
        }
        if unlock_ts <= 0 {
            return Err(CustomError::InvalidUnlockTs);
        }
        let record = CollectionState {
            collection,
            unlock_ts,
            pre_unlock_bps,
            post_unlock_bps,
            update_authority,
        };
        let ghost before = *self;
        self.records.push(record);
        proof {
            let after = *self;
            assert forall|i: int, j: int| 0 <= i < j < after.records@.len() implies (
            #[trigger] after.records@[i]).collection != (
            #[trigger] after.records@[j]).collection by {
                if j == after.records@.len() - 1 {
                    if after.records@[i].collection == collection {
                        assert(before.holds_at(i, collection));
                    }
                }
            }
            assert(after.wf());
            assert forall|c: Address| after@.contains_key(c) <==> before@.insert(
                collection,
                record,
            ).contains_key(c) by {
                if after@.contains_key(c) {
                    let i = choose|i: int| after.holds_at(i, c);
                    assert(after.holds_at(i, c));
                    if i < before.records@.len() {
                        assert(before.holds_at(i, c));
                    }
                }
                if before@.contains_key(c) {
                    let i = choose|i: int| before.holds_at(i, c);
                    assert(before.holds_at(i, c));
                    assert(after.holds_at(i, c));
                }
                if c == collection {
                    assert(after.holds_at(after.records@.len() - 1, c));
                }
            }
            assert forall|c: Address| after@.contains_key(c) implies after@[c] == before@.insert(
                collection,
                record,
            )[c] by {
                let i = choose|i: int| after.holds_at(i, c);
                assert(after.holds_at(i, c));
                after.lemma_view_at(i);
                if i < before.records@.len() {
                    before.lemma_view_at(i);
                }
            }
            assert(after@ =~= before@.insert(collection, record));
        }
        Ok(record)
    }

    /// First half of initializing a policy: checks that the collection has
    /// no record yet and that the terms are valid, and returns the registry
    /// call that creates the collection together with the record to store
    /// once the registry has accepted it. The store is not changed.
    pub fn initialize_policy(
        &self,
        ctx: &CreateCollectionWithState,
        registry_id: &Address,
        name: String,
        uri: String,
        unlock_ts: i64,
        pre_unlock_bps: u16,
        post_unlock_bps: u16,
    ) -> (r: Result<(RegistryCall, CollectionState), CustomError>)
        requires
            self.wf(),
        ensures
            match r {
                Ok((call, record)) => {
                    &&& initialize_error(
                        self@,
                        *ctx,
                        *registry_id,
                        unlock_ts,
                        pre_unlock_bps,
                        post_unlock_bps,
                    ) is None
                    &&& creates_collection(call, *ctx, name@, uri@)
                    &&& Ok::<CollectionState, CustomError>(record) == create_result(
                        self@,
                        ctx.collection,
                        unlock_ts,
                        pre_unlock_bps,
                        post_unlock_bps,
                        ctx.update_authority,
                    )
                },
                Err(e) => initialize_error(
                    self@,
                    *ctx,
                    *registry_id,
                    unlock_ts,
                    pre_unlock_bps,
                    post_unlock_bps,
                ) == Some(e),
            },
    {
        if self.lookup(&ctx.collection).is_ok() {
            return Err(CustomError::DuplicateRecord);
        }
        create_collection_with_state(
            ctx,
            registry_id,
            name,
            uri,
            unlock_ts,
            pre_unlock_bps,
            post_unlock_bps,
        )
    }

    /// Second half of initializing a policy: takes the registry's answer to
    /// the call that creates the collection. If the registry refused, the
    /// operation ends with `RegistryFailure` and nothing is stored; if it
    /// accepted, `record` is stored as `create` stores it.
    pub fn complete_initialize(&mut self, record: &CollectionState, outcome: Result<(), u64>) -> (r:
        Result<CollectionState, CustomError>)
        requires
            old(self).wf(),
        ensures
            final(self).wf(),
            r == match outcome {
                Err(code) => Err(CustomError::RegistryFailure(code)),
                Ok(_) => create_result(
                    old(self)@,
                    record.collection,
                    record.unlock_ts,
                    record.pre_unlock_bps,
                    record.post_unlock_bps,
                    record.update_authority,
                ),
            },
            final(self)@ == match r {
                Ok(stored) => old(self)@.insert(record.collection, stored),
                Err(_) => old(self)@,
            },
    {
        match outcome {
            Err(code) => Err(CustomError::RegistryFailure(code)),
            Ok(_) => self.create(
                record.collection,
                record.unlock_ts,
                record.pre_unlock_bps,
                record.post_unlock_bps,
                record.update_authority,
            ),
        }
    }

    /// Mints under the stored policy: looks the collection's record up and
    /// checks the request against it. On success the one registry call that
    /// creates the asset frozen, at the rate before unlock, is returned.
    pub fn mint(
        &self,
        ctx: &MintLockedAsset,
        registry_id: &Address,
        name: String,
        uri: String,
    ) -> (r: Result<RegistryCall, CustomError>)
        requires
            self.wf(),
        ensures
            match r {
                Ok(call) => {
                    &&& stored_request_error(
                        self@,
                        ctx.collection,
                        ctx.update_authority,
                        ctx.mpl_core_program,
                        *registry_id,
                    ) is None
                    &&& mints_locked(call, *ctx, self@[ctx.collection], name@, uri@)
                },
                Err(e) => stored_request_error(
                    self@,
                    ctx.collection,
                    ctx.update_authority,
                    ctx.mpl_core_program,
                    *registry_id,
                ) == Some(e),
            },
    {
        let state = self.lookup(&ctx.collection)?;
        mint_locked_asset(ctx, &state, registry_id, name, uri)
    }

    /// Unlocks under the stored policy at time `now`: looks the collection's
    /// record up and checks the request and the time against it. On success
    /// the two registry calls of an unlock are returned in order.
    pub fn unlock(&self, ctx: &UnlockAsset, registry_id: &Address, now: i64) -> (r: Result<
        Vec<RegistryCall>,
        CustomError,
    >)
        requires
            self.wf(),
        ensures
            match r {
                Ok(calls) => {
                    &&& stored_unlock_error(self@, *ctx, *registry_id, now) is None
                    &&& unlocks(calls@, *ctx, self@[ctx.collection])
                },
                Err(e) => stored_unlock_error(self@, *ctx, *registry_id, now) == Some(e),
            },
    {
        let state = self.lookup(&ctx.collection)?;
        unlock_asset(ctx, &state, registry_id, now)
    }

    /// Changes a plugin under the stored policy: looks the collection's
    /// record up and checks the request against it. On success the one
    /// registry call that attaches `plugin`, unread, is returned.
    pub fn mutate_plugin(&self, ctx: &AddPlugin, registry_id: &Address, plugin: Plugin) -> (r:
        Result<RegistryCall, CustomError>)
        requires
            self.wf(),
        ensures
            match r {
                Ok(call) => {
                    &&& stored_request_error(
                        self@,
                        ctx.collection,
                        ctx.update_authority,
                        ctx.mpl_core_program,
                        *registry_id,
                    ) is None
                    &&& call == (RegistryCall::AddPlugin {
                        asset: ctx.asset,
                        authority: ctx.update_authority,
                        payer: ctx.payer,
                        plugin,
                    })
                },
                Err(e) => stored_request_error(
                    self@,
                    ctx.collection,
                    ctx.update_authority,
                    ctx.mpl_core_program,
                    *registry_id,
                ) == Some(e),
            },
    {
        let state = self.lookup(&ctx.collection)?;
        add_plugin(ctx, &state, registry_id, plugin)
    }
}

} // verus!
