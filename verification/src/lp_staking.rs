//! The staking pool: stakers lock the incentivised token and share, in
//! proportion to their stake, the rewards that vest over a bounded epoch.

pub mod conservation;
pub mod contract;
pub mod laws;
pub mod msg;
pub mod state;
