//! The allocator: it mints the governance token along a schedule and shares
//! each block's mint among the reward sinks in proportion to their weights.

pub mod contract;
pub mod laws;
pub mod msg;
pub mod state;
