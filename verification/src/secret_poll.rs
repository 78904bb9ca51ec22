//! The poll: holders of staked tokens vote with the weight of their stake.

pub mod contract;
pub mod msg;
pub mod state;
