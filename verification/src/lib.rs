//! Verified core of a small Internet Computer podcast platform: the manager
//! canister's registry of podcast canisters and payment sub-accounts, the
//! podcast canister's owners and episodes, and the NDP canister's staking and
//! site registries.

pub mod principal;
pub mod principal_map;
pub mod manager;
pub mod podcast;
pub mod ndp;
