//! The cashback minter: it mints a cashback token to traders for swaps of
//! SCRT on the trading pairs it supports.

pub mod contract;
pub mod msg;
pub mod querier;
pub mod state;
