//! The manager canister: who owns which podcast canister, which canisters
//! await an upgrade, and the sub-accounts that take payments.

pub mod ic_wallet;
pub mod manager;
pub mod owner;
pub mod canister;
