//! What holds of the operations taken together.

use crate::address::Address;
use crate::asset::{AssetRef, Lifecycle};
use crate::errors::CustomError;
use crate::instructions::{
    mints_locked, request_error, unlock_error, unlocks, MintLockedAsset, UnlockAsset,
};
use crate::registry::RegistryCall;
use crate::state::CollectionState;
use crate::store::{
    create_result, lookup_result, stored_request_error, stored_unlock_error,
};
use crate::validate::binding_error;
use vstd::prelude::*;

verus! {

/// A record that was just created is found under its collection, and each of
/// its fields is the term it was created with.
pub proof fn lemma_create_then_lookup(
    records: Map<Address, CollectionState>,
    collection: Address,
    unlock_ts: i64,
    pre_unlock_bps: u16,
    post_unlock_bps: u16,
    update_authority: Address,
)
    requires
        create_result(
            records,
            collection,
            unlock_ts,
            pre_unlock_bps,
            post_unlock_bps,
            update_authority,
        ) is Ok,
    ensures
        ({
            let record = create_result(
                records,
                collection,
                unlock_ts,
                pre_unlock_bps,
                post_unlock_bps,
                update_authority,
            )->Ok_0;
            &&& lookup_result(records.insert(collection, record), collection) == Ok::<
                CollectionState,
                CustomError,
            >(record)
            &&& record.collection == collection
            &&& record.unlock_ts == unlock_ts
            &&& record.pre_unlock_bps == pre_unlock_bps
            &&& record.post_unlock_bps == post_unlock_bps
            &&& record.update_authority == update_authority
            &&& record.wf()
        }),
{
}

/// Creating a record for a collection that has one fails with
/// `DuplicateRecord`, whatever the terms, and the record that is there stays
/// the one that is found.
pub proof fn lemma_create_twice(
    records: Map<Address, CollectionState>,
    collection: Address,
    unlock_ts: i64,
    pre_unlock_bps: u16,
    post_unlock_bps: u16,
    update_authority: Address,
)
    requires
        records.contains_key(collection),
    ensures
        create_result(
            records,
            collection,
            unlock_ts,
            pre_unlock_bps,
            post_unlock_bps,
            update_authority,
        ) == Err::<CollectionState, CustomError>(CustomError::DuplicateRecord),
        lookup_result(records, collection) == Ok::<CollectionState, CustomError>(
            records[collection],
        ),
{
}

/// Creating a record leaves the record of every other collection as it was.
pub proof fn lemma_create_keeps_others(
    records: Map<Address, CollectionState>,
    record: CollectionState,
    other: Address,
)
    requires
        other != record.collection,
    ensures
        lookup_result(records.insert(record.collection, record), other) == lookup_result(
            records,
            other,
        ),
{
}

/// A request that presents another collection or another authority than the
/// record's fails with the binding's own failure, in every operation and
/// whatever else is wrong with it.
pub proof fn lemma_binding_comes_first(
    state: CollectionState,
    ctx: UnlockAsset,
    registry_id: Address,
    now: i64,
)
    requires
        binding_error(state, ctx.collection, ctx.update_authority) is Some,
    ensures
        request_error(
            state,
            ctx.collection,
            ctx.update_authority,
            ctx.mpl_core_program,
            registry_id,
        ) == binding_error(state, ctx.collection, ctx.update_authority),
        unlock_error(ctx, state, registry_id, now) == binding_error(
            state,
            ctx.collection,
            ctx.update_authority,
        ),
        state.collection != ctx.collection ==> binding_error(
            state,
            ctx.collection,
            ctx.update_authority,
        ) == Some(CustomError::StateCollectionMismatch),
        state.collection == ctx.collection ==> binding_error(
            state,
            ctx.collection,
            ctx.update_authority,
        ) == Some(CustomError::BadAuthority),
{
}

/// Against the store, a request by another authority than the one in the
/// collection's record fails with `BadAuthority`, and a request on a
/// collection without a record with `NotFound`.
pub proof fn lemma_stored_binding(
    records: Map<Address, CollectionState>,
    ctx: UnlockAsset,
    registry_id: Address,
    now: i64,
)
    requires
        forall|c: Address| records.contains_key(c) ==> (#[trigger] records[c]).collection == c,
    ensures
        !records.contains_key(ctx.collection) ==> {
            &&& stored_unlock_error(records, ctx, registry_id, now) == Some(CustomError::NotFound)
            &&& stored_request_error(
                records,
                ctx.collection,
                ctx.update_authority,
                ctx.mpl_core_program,
                registry_id,
            ) == Some(CustomError::NotFound)
        },
        records.contains_key(ctx.collection) && records[ctx.collection].update_authority
            != ctx.update_authority ==> {
            &&& stored_unlock_error(records, ctx, registry_id, now) == Some(
                CustomError::BadAuthority,
            )
            &&& stored_request_error(
                records,
                ctx.collection,
                ctx.update_authority,
                ctx.mpl_core_program,
                registry_id,
            ) == Some(CustomError::BadAuthority)
        },
{
    if records.contains_key(ctx.collection) {
        assert(records[ctx.collection].collection == ctx.collection);
    }
}

/// An unlock before the unlock time, by the record's authority on the
/// record's collection, fails with `NotYetUnlocked`.
pub proof fn lemma_unlock_too_early(
    state: CollectionState,
    ctx: UnlockAsset,
    registry_id: Address,
    now: i64,
)
    requires
        binding_error(state, ctx.collection, ctx.update_authority) is None,
        now < state.unlock_ts,
    ensures
        unlock_error(ctx, state, registry_id, now) == Some(CustomError::NotYetUnlocked),
{
}

/// An unlock at or after the unlock time, bound to the record and with the
/// expected registry program, is not refused.
pub proof fn lemma_unlock_in_time(
    state: CollectionState,
    ctx: UnlockAsset,
    registry_id: Address,
    now: i64,
)
    requires
        binding_error(state, ctx.collection, ctx.update_authority) is None,
        now >= state.unlock_ts,
        ctx.mpl_core_program == registry_id,
    ensures
        unlock_error(ctx, state, registry_id, now) is None,
{
}

/// The call of a mint takes an unminted asset to frozen, at the record's
/// rate before unlock.
pub proof fn lemma_mint_freezes(
    call: RegistryCall,
    ctx: MintLockedAsset,
    state: CollectionState,
    name: Seq<char>,
    uri: Seq<char>,
    asset: AssetRef,
)
    requires
        mints_locked(call, ctx, state, name, uri),
        asset.id == ctx.asset,
        !asset.minted,
    ensures
        asset.after(call).minted,
        asset.after(call).frozen,
        asset.after(call).basis_points == state.pre_unlock_bps,
        asset.after(call).lifecycle_of(state) == Lifecycle::FrozenPreUnlock,
{
    reveal_with_fuel(AssetRef::with_plugins, 3);
    match call {
        RegistryCall::CreateAsset { plugins, .. } => {
            let ps = plugins@;
            assert(ps.drop_last().len() == 1);
            assert(ps.drop_last().drop_last().len() == 0);
            assert(ps.drop_last().last() == ps[0]);
            assert(ps.last() == ps[1]);
        },
        _ => {},
    }
}

/// The two calls of an unlock, accepted in order, take a minted asset to
/// thawed, at the record's rate after unlock. After the first alone the
/// asset is thawed and its rate is still the old one.
pub proof fn lemma_unlock_thaws(
    calls: Seq<RegistryCall>,
    ctx: UnlockAsset,
    state: CollectionState,
    asset: AssetRef,
)
    requires
        unlocks(calls, ctx, state),
        asset.id == ctx.asset,
        asset.minted,
    ensures
        !asset.after(calls[0]).frozen,
        asset.after(calls[0]).basis_points == asset.basis_points,
        asset.after_all(calls) == asset.after(calls[0]).after(calls[1]),
        !asset.after_all(calls).frozen,
        asset.after_all(calls).basis_points == state.post_unlock_bps,
        asset.after_all(calls).lifecycle_of(state) == Lifecycle::UnfrozenPostUnlock,
{
    reveal_with_fuel(AssetRef::after_all, 3);
    assert(calls.drop_last().len() == 1);
    assert(calls.drop_last().drop_last().len() == 0);
    assert(calls.drop_last().last() == calls[0]);
    assert(calls.last() == calls[1]);
}

} // verus!
