//! The development fund: a sink that collects its allocations and releases
//! them to a beneficiary.

pub mod contract;
pub mod laws;
pub mod msg;
pub mod state;
