//! Time-locked royalty and transfer-freeze policy for collections of
//! non-fungible assets.
//!
//! A collection authority fixes, once, an unlock time and two royalty rates.
//! Assets are minted frozen at the higher rate; once the unlock time has
//! passed the authority may thaw an asset and lower its royalty. The asset
//! registry itself is an external service: every operation here validates a
//! request against the stored policy and, on success, yields the registry
//! calls to issue.

pub mod address;
pub mod asset;
pub mod errors;
pub mod instructions;
pub mod laws;
pub mod pda;
pub mod progress;
pub mod registry;
pub mod state;
pub mod store;
pub mod validate;

pub use address::Address;
pub use asset::{AssetRef, Lifecycle};
pub use errors::CustomError;
pub use instructions::{
    add_plugin, create_collection_with_state, mint_locked_asset, unlock_asset, AddPlugin,
    CreateCollectionWithState, MintLockedAsset, UnlockAsset,
};
pub use pda::policy_address;
pub use progress::{advance, begin, Progress};
pub use registry::{Creator, Plugin, PluginAuthority, PluginAuthorityPair, RegistryCall};
pub use state::CollectionState;
pub use store::PolicyStore;
pub use validate::{
    validate_binding, validate_bps, validate_registry_identity, validate_time_reached,
    validate_unlock_ts, MAX_BPS,
};
