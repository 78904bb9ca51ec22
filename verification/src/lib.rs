//! Weight-based token emission and reward distribution.
//!
//! An allocator mints a governance token along a schedule and shares every
//! block's mint among reward sinks in proportion to their weights. A staking
//! pool pays the rewards it is given to its stakers, in proportion to their
//! stake, over a bounded epoch and without ever walking over them. A
//! development fund collects its share and releases it to a beneficiary.
//!
//! The contracts are written as plain state machines: an operation takes the
//! contract's records, the environment of the call and a message, and either
//! changes the records and answers with messages to send, or fails and
//! changes nothing. Storage, wire formats and the chain's own types are left
//! to the host.
//!
//! - [`schedule`]: the mint schedule and its integral.
//! - [`master`]: the allocator.
//! - [`lp_staking`]: the staking pool.
//! - [`dev_fund`]: the development fund.
//! - [`cashback_minter`], [`secret_poll`]: two small contracts that use the
//!   same building blocks.
//! - [`store`], [`types`], [`error`], [`padding`], [`viewing_key`],
//!   [`text`], [`constants`]: what the contracts share.

pub mod cashback_minter;
pub mod constants;
pub mod dev_fund;
pub mod error;
pub mod lp_staking;
pub mod master;
pub mod padding;
pub mod schedule;
pub mod secret_poll;
pub mod store;
pub mod text;
pub mod types;
pub mod viewing_key;
