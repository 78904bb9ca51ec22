//! What a development fund keeps on record.

use vstd::prelude::*;
use crate::types::SecretContract;

verus! {

/// The settings of a fund.
#[derive(Debug, PartialEq, Eq)]
pub struct Config {
    pub admin: String,
    /// Who may ask for the fund to be paid out.
    pub beneficiary: String,
    /// The token the fund collects.
    pub reward_token: SecretContract,
    /// The allocator that feeds the fund.
    pub master: SecretContract,
    /// The key with which the fund reads its own token balance.
    pub viewing_key: String,
    /// The fund's own address.
    pub own_addr: String,
}

/// The whole of a fund: its settings and what it has collected and not yet
/// paid out.
#[derive(Debug, PartialEq, Eq)]
pub struct DevFund {
    pub config: Config,
    pub accumulated_rewards: u128,
}

} // verus!
