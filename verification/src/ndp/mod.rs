//! The NDP canister: stakes of the NDP token and registries of sites.

pub mod actions;
pub mod metadata;
pub mod sitedata;
pub mod siteinfo;
pub mod staking;
pub mod types;
pub mod utils;
