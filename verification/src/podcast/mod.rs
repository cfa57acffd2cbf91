//! The podcast canister: its owners and administrator, its base information,
//! its episodes and its social links.

pub mod owner;
pub mod podcast;
pub mod types;
