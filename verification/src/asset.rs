//! A model of what the registry holds of one asset.
//!
//! The registry keeps the asset; nothing here is stored by the operations.
//! The model says what the calls that they return mean for an asset, so that
//! the life of an asset (unminted, frozen at the rate before unlock, thawed at
//! the rate after unlock) can be stated and followed.

use crate::address::Address;
use crate::registry::{Plugin, PluginAuthorityPair, RegistryCall};
use crate::state::CollectionState;
use vstd::prelude::*;

verus! {

/// The freeze flag and royalty rate of one asset.
#[derive(Clone, Copy, Debug, PartialEq, Eq)]
pub struct AssetRef {
    pub id: Address,
    /// Whether the registry has created the asset.
    pub minted: bool,
    /// Whether the asset is frozen, that is, cannot be transferred.
    pub frozen: bool,
    /// Its royalty rate, in basis points.
    pub basis_points: u16,
}

/// Where an asset stands in its life under a policy.
#[derive(Clone, Copy, Debug, PartialEq, Eq, Structural)]
pub enum Lifecycle {
    /// Not created yet.
    Unminted,
    /// Frozen, at the rate before unlock.
    FrozenPreUnlock,
    /// Thawed, at the rate after unlock.
    UnfrozenPostUnlock,
    /// Any other combination, as a plugin change by the authority leaves it.
    PluginMutated,
}

impl AssetRef {
    /// The asset with `plugin` attached or replaced. A plugin other than the
    /// royalty schedule and the freeze flag leaves both as they are.
    pub open spec fn with_plugin(self, plugin: Plugin) -> AssetRef {
        match plugin {
            Plugin::Royalties { basis_points, creators } => AssetRef { basis_points, ..self },
            Plugin::FreezeDelegate { frozen } => AssetRef { frozen, ..self },
            Plugin::Other { data } => self,
        }
    }

    /// The asset with each of `plugins` attached, the first one first.
    pub open spec fn with_plugins(self, plugins: Seq<PluginAuthorityPair>) -> AssetRef
        decreases plugins.len(),
    {
        if plugins.len() == 0 {
            self
        } else {
            self.with_plugins(plugins.drop_last()).with_plugin(plugins.last().plugin)
        }
    }

    /// The asset after the registry has accepted `call`. A call on another
    /// asset, the creation of an asset that exists and a plugin change on one
    /// that does not leave it as it is.
    pub open spec fn after(self, call: RegistryCall) -> AssetRef {
        match call {
            RegistryCall::CreateAsset { asset, plugins, .. } => if asset == self.id
                && !self.minted {
                (AssetRef { minted: true, ..self }).with_plugins(plugins@)
            } else {
                self
            },
            RegistryCall::UpdatePlugin { asset, plugin, .. } => if asset == self.id
                && self.minted {
                self.with_plugin(plugin)
            } else {
                self
            },
            RegistryCall::AddPlugin { asset, plugin, .. } => if asset == self.id && self.minted {
                self.with_plugin(plugin)
            } else {
                self
            },
            RegistryCall::CreateCollection { .. } => self,
        }
    }

    /// The asset after the registry has accepted each of `calls`, the first
    /// one first.
    pub open spec fn after_all(self, calls: Seq<RegistryCall>) -> AssetRef
        decreases calls.len(),
    {
        if calls.len() == 0 {
            self
        } else {
            self.after_all(calls.drop_last()).after(calls.last())
        }
    }

    /// Where the asset stands under the policy `state`.
    pub open spec fn lifecycle_of(self, state: CollectionState) -> Lifecycle {
        if !self.minted {
            Lifecycle::Unminted
        } else if self.frozen && self.basis_points == state.pre_unlock_bps {
            Lifecycle::FrozenPreUnlock
        } else if !self.frozen && self.basis_points == state.post_unlock_bps {
            Lifecycle::UnfrozenPostUnlock
        } else {
            Lifecycle::PluginMutated
        }
    }

    /// The asset `id` before it is minted.
    pub fn unminted(id: Address) -> (asset: AssetRef)
        ensures
            asset == (AssetRef { id, minted: false, frozen: false, basis_points: 0 }),
    {
        AssetRef { id, minted: false, frozen: false, basis_points: 0 }
    }

    /// Attaches or replaces one plugin.
    pub fn attach(&mut self, plugin: &Plugin)
        ensures
            *final(self) == old(self).with_plugin(*plugin),
    {
        match plugin {
            Plugin::Royalties { basis_points, .. } => {
                self.basis_points = *basis_points;
            },
            Plugin::FreezeDelegate { frozen } => {
                self.frozen = *frozen;
            },
            Plugin::Other { .. } => {},
        }
    }

    /// Attaches each of `plugins`, the first one first.
    fn attach_all(&mut self, plugins: &Vec<PluginAuthorityPair>)
        ensures
            *final(self) == old(self).with_plugins(plugins@),
    {
        let ghost start = *self;
        let mut i: usize = 0;
        while i < plugins.len()
            invariant
                i <= plugins@.len(),
                *self == start.with_plugins(plugins@.subrange(0, i as int)),
            decreases plugins@.len() - i,
        {
            self.attach(&plugins[i].plugin);
            proof {
                let upto = plugins@.subrange(0, i + 1);
                assert(upto.drop_last() =~= plugins@.subrange(0, i as int));
                assert(upto.last() == plugins@[i as int]);
            }
            i += 1;
        }
        proof {
            assert(plugins@.subrange(0, i as int) =~= plugins@);
        }
    }

    /// Follows one call that the registry has accepted.
    pub fn apply(&mut self, call: &RegistryCall)
        ensures
            *final(self) == old(self).after(*call),
    {
        match call {
            RegistryCall::CreateAsset { asset, plugins, .. } => {
                if *asset == self.id && !self.minted {
                    self.minted = true;
                    self.attach_all(plugins);
                }
            },
            RegistryCall::UpdatePlugin { asset, plugin, .. } => {
                if *asset == self.id && self.minted {
                    self.attach(plugin);
                }
            },
            RegistryCall::AddPlugin { asset, plugin, .. } => {
                if *asset == self.id && self.minted {
                    self.attach(plugin);
                }
            },
            RegistryCall::CreateCollection { .. } => {},
        }
    }

    /// Follows each of `calls`, the first one first.
    pub fn apply_all(&mut self, calls: &Vec<RegistryCall>)
        ensures
            *final(self) == old(self).after_all(calls@),
    {
        let ghost start = *self;
        let mut i: usize = 0;
        while i < calls.len()
            invariant
                i <= calls@.len(),
                *self == start.after_all(calls@.subrange(0, i as int)),
            decreases calls@.len() - i,
        {
            self.apply(&calls[i]);
            proof {
                let upto = calls@.subrange(0, i + 1);
                assert(upto.drop_last() =~= calls@.subrange(0, i as int));
                assert(upto.last() == calls@[i as int]);
            }
            i += 1;
        }
        proof {
            assert(calls@.subrange(0, i as int) =~= calls@);
        }
    }

    /// Where the asset stands under the policy `state`.
    pub fn lifecycle(&self, state: &CollectionState) -> (stage: Lifecycle)
        ensures
            stage == self.lifecycle_of(*state),
    {
        if !self.minted {
            Lifecycle::Unminted
        } else if self.frozen && self.basis_points == state.pre_unlock_bps {
            Lifecycle::FrozenPreUnlock
        } else if !self.frozen && self.basis_points == state.post_unlock_bps {
            Lifecycle::UnfrozenPostUnlock
        } else {
            Lifecycle::PluginMutated
        }
    }
}

} // verus!
