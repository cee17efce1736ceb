//! The four operations on a collection and its assets.
//!
//! Each takes the identities presented with a request and, where the
//! collection has one, the policy record found for it. It checks the request and returns
//! either the failure or the registry calls that carry the request out. No
//! call is ever returned together with a failure.

use crate::address::Address;
use crate::errors::CustomError;
use crate::registry::{
    freeze, is_freeze, is_managed, is_royalties, managed, royalties, Plugin, PluginAuthorityPair,
    RegistryCall,
};
use crate::state::CollectionState;
use crate::validate::{
    binding_error, validate_binding, validate_bps, validate_registry_identity,
    validate_time_reached, validate_unlock_ts,
};
use vstd::prelude::*;

verus! {

/// Who takes part in creating a collection with its policy.
#[derive(Clone, Copy, Debug, PartialEq, Eq)]
pub struct CreateCollectionWithState {
    /// The collection to create.
    pub collection: Address,
    /// Who pays for it.
    pub payer: Address,
    /// Who will control the collection and its assets.
    pub update_authority: Address,
    /// The registry program presented with the request.
    pub mpl_core_program: Address,
}

/// Who takes part in minting a locked asset.
#[derive(Clone, Copy, Debug, PartialEq, Eq)]
pub struct MintLockedAsset {
    /// The asset to create.
    pub asset: Address,
    /// The collection it is minted into.
    pub collection: Address,
    /// Who will own the asset.
    pub owner: Address,
    pub payer: Address,
    pub update_authority: Address,
    /// The registry program presented with the request.
    pub mpl_core_program: Address,
}

/// Who takes part in unlocking an asset.
#[derive(Clone, Copy, Debug, PartialEq, Eq)]
pub struct UnlockAsset {
    pub asset: Address,
    pub collection: Address,
    pub payer: Address,
    pub update_authority: Address,
    /// The registry program presented with the request.
    pub mpl_core_program: Address,
}

/// Who takes part in attaching a plugin to an asset.
#[derive(Clone, Copy, Debug, PartialEq, Eq)]
pub struct AddPlugin {
    pub asset: Address,
    pub collection: Address,
    pub payer: Address,
    pub update_authority: Address,
    /// The registry program presented with the request.
    pub mpl_core_program: Address,
}

/// Why creating a collection with these terms is refused, if it is: the
/// rates are checked first, then the unlock time, then the registry program.
pub open spec fn create_error(
    ctx: CreateCollectionWithState,
    registry_id: Address,
    unlock_ts: i64,
    pre_unlock_bps: u16,
    post_unlock_bps: u16,
) -> Option<CustomError> {
    if pre_unlock_bps > 10000 || post_unlock_bps > 10000 {
        Some(CustomError::InvalidBps)
    } else if unlock_ts <= 0 {
        Some(CustomError::InvalidUnlockTs)
    } else if ctx.mpl_core_program != registry_id {
        Some(CustomError::InvalidRegistryProgram)
    } else {
        None
    }
}

/// Why a request on `collection` by `authority` is refused, if it is, when
/// `state` is the record found: the binding is checked first, then the
/// registry program.
pub open spec fn request_error(
    state: CollectionState,
    collection: Address,
    authority: Address,
    mpl_core_program: Address,
    registry_id: Address,
) -> Option<CustomError> {
    match binding_error(state, collection, authority) {
        Some(e) => Some(e),
        None => if mpl_core_program != registry_id {
            Some(CustomError::InvalidRegistryProgram)
        } else {
            None
        },
    }
}

/// Why an unlock at time `now` is refused, if it is: the binding is checked
/// first, then the time, then the registry program.
pub open spec fn unlock_error(
    ctx: UnlockAsset,
    state: CollectionState,
    registry_id: Address,
    now: i64,
) -> Option<CustomError> {
    match binding_error(state, ctx.collection, ctx.update_authority) {
        Some(e) => Some(e),
        None => if now < state.unlock_ts {
            Some(CustomError::NotYetUnlocked)
        } else if ctx.mpl_core_program != registry_id {
            Some(CustomError::InvalidRegistryProgram)
        } else {
            None
        },
    }
}

/// `call` creates the collection of `ctx` under `name` and `uri`, without
/// plugins.
pub open spec fn creates_collection(
    call: RegistryCall,
    ctx: CreateCollectionWithState,
    name: Seq<char>,
    uri: Seq<char>,
) -> bool {
    match call {
        RegistryCall::CreateCollection {
            collection,
            update_authority,
            payer,
            name: n,
            uri: u,
            plugins,
        } => {
            &&& collection == ctx.collection
            &&& update_authority == ctx.update_authority
            &&& payer == ctx.payer
            &&& n@ == name
            &&& u@ == uri
            &&& plugins@.len() == 0
        },
        _ => false,
    }
}

/// `call` creates the asset of `ctx` under `name` and `uri` with exactly two
/// plugins, both under the control of the update authority: the royalty
/// schedule at the record's rate before unlock, paid to the authority, and
/// the freeze flag set.
pub open spec fn mints_locked(
    call: RegistryCall,
    ctx: MintLockedAsset,
    state: CollectionState,
    name: Seq<char>,
    uri: Seq<char>,
) -> bool {
    match call {
        RegistryCall::CreateAsset {
            asset,
            collection,
            owner,
            update_authority,
            payer,
            name: n,
            uri: u,
            plugins,
        } => {
            &&& asset == ctx.asset
            &&& collection == ctx.collection
            &&& owner == ctx.owner
            &&& update_authority == ctx.update_authority
            &&& payer == ctx.payer
            &&& n@ == name
            &&& u@ == uri
            &&& plugins@.len() == 2
            &&& is_managed(plugins@[0], plugins@[0].plugin)
            &&& is_royalties(plugins@[0].plugin, state.pre_unlock_bps, ctx.update_authority)
            &&& is_managed(plugins@[1], plugins@[1].plugin)
            &&& is_freeze(plugins@[1].plugin, true)
        },
        _ => false,
    }
}

/// `call` replaces the freeze flag of `asset` by "not frozen".
pub open spec fn thaws(
    call: RegistryCall,
    asset: Address,
    authority: Address,
    payer: Address,
) -> bool {
    call == (RegistryCall::UpdatePlugin {
        asset,
        authority,
        payer,
        plugin: Plugin::FreezeDelegate { frozen: false },
    })
}

/// `call` replaces the royalty schedule of `asset` by one of `basis_points`
/// paid whole to `authority`.
pub open spec fn sets_royalties(
    call: RegistryCall,
    asset: Address,
    authority: Address,
    payer: Address,
    basis_points: u16,
) -> bool {
    match call {
        RegistryCall::UpdatePlugin { asset: a, authority: by, payer: p, plugin } => {
            &&& a == asset
            &&& by == authority
            &&& p == payer
            &&& is_royalties(plugin, basis_points, authority)
        },
        _ => false,
    }
}

/// The calls of `calls` are the two of an unlock, in order: thaw the asset,
/// then lower its royalty to the record's rate after unlock.
pub open spec fn unlocks(calls: Seq<RegistryCall>, ctx: UnlockAsset, state: CollectionState) -> bool {
    &&& calls.len() == 2
    &&& thaws(calls[0], ctx.asset, ctx.update_authority, ctx.payer)
    &&& sets_royalties(
        calls[1],
        ctx.asset,
        ctx.update_authority,
        ctx.payer,
        state.post_unlock_bps,
    )
}

/// Checks the terms of a new collection and, if they are valid, returns the
/// registry call that creates the collection, without plugins, and the policy
/// record to store once the registry has accepted the call.
pub fn create_collection_with_state(
    ctx: &CreateCollectionWithState,
    registry_id: &Address,
    name: String,
    uri: String,
    unlock_ts: i64,
    pre_unlock_bps: u16,
    post_unlock_bps: u16,
) -> (r: Result<(RegistryCall, CollectionState), CustomError>)
    ensures
        match r {
            Ok((call, record)) => {
                &&& create_error(*ctx, *registry_id, unlock_ts, pre_unlock_bps, post_unlock_bps)
                    is None
                &&& creates_collection(call, *ctx, name@, uri@)
                &&& record == (CollectionState {
                    collection: ctx.collection,
                    unlock_ts,
                    pre_unlock_bps,
                    post_unlock_bps,
                    update_authority: ctx.update_authority,
                })
                &&& record.wf()
            },
            Err(e) => create_error(*ctx, *registry_id, unlock_ts, pre_unlock_bps, post_unlock_bps)
                == Some(e),
        },
{
    validate_bps(pre_unlock_bps)?;
    validate_bps(post_unlock_bps)?;
    validate_unlock_ts(unlock_ts)?;
    validate_registry_identity(&ctx.mpl_core_program, registry_id)?;
    let call = RegistryCall::CreateCollection {
        collection: ctx.collection,
        update_authority: ctx.update_authority,
        payer: ctx.payer,
        name,
        uri,
        plugins: Vec::new(),
    };
    let record = CollectionState {
        collection: ctx.collection,
        unlock_ts,
        pre_unlock_bps,
        post_unlock_bps,
        update_authority: ctx.update_authority,
    };
    Ok((call, record))
}

/// Checks a mint request against the policy record and, if it is bound to
/// it, returns the one registry call that creates the asset frozen and at the
/// rate before unlock.
pub fn mint_locked_asset(
    ctx: &MintLockedAsset,
    state: &CollectionState,
    registry_id: &Address,
    name: String,
    uri: String,
) -> (r: Result<RegistryCall, CustomError>)
    ensures
        match r {
            Ok(call) => {
                &&& request_error(
                    *state,
                    ctx.collection,
                    ctx.update_authority,
                    ctx.mpl_core_program,
                    *registry_id,
                ) is None
                &&& mints_locked(call, *ctx, *state, name@, uri@)
            },
            Err(e) => request_error(
                *state,
                ctx.collection,
                ctx.update_authority,
                ctx.mpl_core_program,
                *registry_id,
            ) == Some(e),
        },
{
    validate_binding(state, &ctx.collection, &ctx.update_authority)?;
    validate_registry_identity(&ctx.mpl_core_program, registry_id)?;
    let mut plugins: Vec<PluginAuthorityPair> = Vec::new();
    plugins.push(managed(royalties(state.pre_unlock_bps, ctx.update_authority)));
    plugins.push(managed(freeze(true)));
    Ok(
        RegistryCall::CreateAsset {
            asset: ctx.asset,
            collection: ctx.collection,
            owner: ctx.owner,
            update_authority: ctx.update_authority,
            payer: ctx.payer,
            name,
            uri,
            plugins,
        },
    )
}

/// Checks an unlock request at time `now` and, if the unlock time has come,
/// returns the two registry calls of an unlock in the order in which they are
/// to be issued: thaw first, then the lower royalty. The registry takes them
/// one by one; if it refuses the second, the asset stays thawed at the old
/// rate.
pub fn unlock_asset(
    ctx: &UnlockAsset,
    state: &CollectionState,
    registry_id: &Address,
    now: i64,
) -> (r: Result<Vec<RegistryCall>, CustomError>)
    ensures
        match r {
            Ok(calls) => unlock_error(*ctx, *state, *registry_id, now) is None && unlocks(
                calls@,
                *ctx,
                *state,
            ),
            Err(e) => unlock_error(*ctx, *state, *registry_id, now) == Some(e),
        },
{
    validate_binding(state, &ctx.collection, &ctx.update_authority)?;
    validate_time_reached(state, now)?;
    validate_registry_identity(&ctx.mpl_core_program, registry_id)?;
    let mut calls: Vec<RegistryCall> = Vec::new();
    calls.push(
        RegistryCall::UpdatePlugin {
            asset: ctx.asset,
            authority: ctx.update_authority,
            payer: ctx.payer,
            plugin: freeze(false),
        },
    );
    calls.push(
        RegistryCall::UpdatePlugin {
            asset: ctx.asset,
            authority: ctx.update_authority,
            payer: ctx.payer,
            plugin: royalties(state.post_unlock_bps, ctx.update_authority),
        },
    );
    Ok(calls)
}

/// Checks a plugin request against the policy record and, if it is bound to
/// it, returns the one registry call that attaches `plugin` to the asset.
///
/// The plugin is passed on as it is. The authority can therefore freeze or
/// thaw an asset, or change its royalty, at any time and whatever the unlock
/// time: this is meant.
pub fn add_plugin(
    ctx: &AddPlugin,
    state: &CollectionState,
    registry_id: &Address,
    plugin: Plugin,
) -> (r: Result<RegistryCall, CustomError>)
    ensures
        match r {
            Ok(call) => {
                &&& request_error(
                    *state,
                    ctx.collection,
                    ctx.update_authority,
                    ctx.mpl_core_program,
                    *registry_id,
                ) is None
                &&& call == (RegistryCall::AddPlugin {
                    asset: ctx.asset,
                    authority: ctx.update_authority,
                    payer: ctx.payer,
                    plugin,
                })
            },
            Err(e) => request_error(
                *state,
                ctx.collection,
                ctx.update_authority,
                ctx.mpl_core_program,
                *registry_id,
            ) == Some(e),
        },
{
    validate_binding(state, &ctx.collection, &ctx.update_authority)?;
    validate_registry_identity(&ctx.mpl_core_program, registry_id)?;
    Ok(
        RegistryCall::AddPlugin {
            asset: ctx.asset,
            authority: ctx.update_authority,
            payer: ctx.payer,
            plugin,
        },
    )
}

} // verus!
