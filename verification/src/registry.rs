//! What is asked of the asset registry.
//!
//! The registry creates collections and assets and keeps their plugins. This
//! library never talks to it: an operation that succeeds hands back the calls
//! to issue, as values, and the caller issues them in order.

use crate::address::Address;
use vstd::prelude::*;

verus! {

/// One beneficiary of a royalty and its share, in percent.
#[derive(Clone, Copy, Debug, PartialEq, Eq)]
pub struct Creator {
    pub address: Address,
    pub percentage: u8,
}

/// A plugin as it is handed to the registry.
#[derive(Clone, Debug, PartialEq, Eq)]
pub enum Plugin {
    /// The royalty schedule: a rate in basis points and who receives it.
    Royalties { basis_points: u16, creators: Vec<Creator> },
    /// Whether the asset is frozen, that is, cannot be transferred.
    FreezeDelegate { frozen: bool },
    /// Any other plugin, in the registry's own encoding. Nothing here reads it.
    Other { data: Vec<u8> },
}

/// Who may change a plugin once it is attached.
#[derive(Clone, Copy, Debug, PartialEq, Eq)]
pub enum PluginAuthority {
    /// Nobody.
    Nobody,
    /// The owner of the asset.
    Owner,
    /// The update authority of the asset or of its collection.
    UpdateAuthority,
    /// One given identity.
    Address { address: Address },
}

/// A plugin to attach at creation, and who may change it afterwards.
#[derive(Clone, Debug, PartialEq, Eq)]
pub struct PluginAuthorityPair {
    pub plugin: Plugin,
    pub authority: Option<PluginAuthority>,
}

/// One call to the registry.
#[derive(Clone, Debug, PartialEq, Eq)]
pub enum RegistryCall {
    /// Create a collection with the given plugins.
    CreateCollection {
        collection: Address,
        update_authority: Address,
        payer: Address,
        name: String,
        uri: String,
        plugins: Vec<PluginAuthorityPair>,
    },
    /// Create an asset in a collection; the plugins are applied with it or
    /// not at all.
    CreateAsset {
        asset: Address,
        collection: Address,
        owner: Address,
        update_authority: Address,
        payer: Address,
        name: String,
        uri: String,
        plugins: Vec<PluginAuthorityPair>,
    },
    /// Replace the value of a plugin that the asset has.
    UpdatePlugin { asset: Address, authority: Address, payer: Address, plugin: Plugin },
    /// Attach a plugin to the asset.
    AddPlugin { asset: Address, authority: Address, payer: Address, plugin: Plugin },
}

/// `plugin` is a royalty schedule of `basis_points` whose one beneficiary,
/// `beneficiary`, receives all of it.
pub open spec fn is_royalties(plugin: Plugin, basis_points: u16, beneficiary: Address) -> bool {
    match plugin {
        Plugin::Royalties { basis_points: rate, creators } => {
            &&& rate == basis_points
            &&& creators@ == seq![Creator { address: beneficiary, percentage: 100 }]
        },
        _ => false,
    }
}

/// `plugin` is the freeze flag with the value `frozen`.
pub open spec fn is_freeze(plugin: Plugin, frozen: bool) -> bool {
    plugin == (Plugin::FreezeDelegate { frozen })
}

/// `pair` holds `plugin` under the control of the update authority.
pub open spec fn is_managed(pair: PluginAuthorityPair, plugin: Plugin) -> bool {
    pair == (PluginAuthorityPair { plugin, authority: Some(PluginAuthority::UpdateAuthority) })
}

/// `plugin`, under the control of the update authority.
pub fn managed(plugin: Plugin) -> (pair: PluginAuthorityPair)
    ensures
        is_managed(pair, plugin),
{
    PluginAuthorityPair { plugin, authority: Some(PluginAuthority::UpdateAuthority) }
}

/// The royalty schedule of `basis_points` paid whole to `beneficiary`.
pub fn royalties(basis_points: u16, beneficiary: Address) -> (plugin: Plugin)
    ensures
        is_royalties(plugin, basis_points, beneficiary),
{
    let mut creators: Vec<Creator> = Vec::new();
    creators.push(Creator { address: beneficiary, percentage: 100 });
    Plugin::Royalties { basis_points, creators }
}

/// The freeze flag with the value `frozen`.
pub fn freeze(frozen: bool) -> (plugin: Plugin)
    ensures
        is_freeze(plugin, frozen),
{
    Plugin::FreezeDelegate { frozen }
}

} // verus!
