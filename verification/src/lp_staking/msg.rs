//! The messages a staking pool accepts and the answers it gives.

use vstd::prelude::*;
use crate::types::{HandleResponse, ResponseStatus, SecretContract};
use crate::viewing_key::ViewingKey;

verus! {

/// What a pool is created with.
#[derive(Debug, PartialEq, Eq)]
pub struct InitMsg {
    pub reward_token: SecretContract,
    pub inc_token: SecretContract,
    pub master: SecretContract,
    pub deadline: u64,
    pub pool_claim_block: u64,
    pub viewing_key: String,
    pub prng_seed: Vec<u8>,
}

/// What the sender of tokens wants done with them.
#[derive(Clone, Copy, Debug, PartialEq, Eq)]
pub enum ReceiveMsg {
    /// Lock the tokens as stake.
    Deposit,
    /// Add the tokens to the rewards that will vest.
    DepositRewards,
}

/// The state-changing messages of a pool.
#[derive(Debug, PartialEq, Eq)]
#[allow(inconsistent_fields)]
pub enum LPStakingHandleMsg {
    /// Take out `amount` of the sender's stake, all of it when no amount is
    /// given, together with the rewards owed.
    Redeem { amount: Option<u128> },
    /// Tokens arrived: `amount` from `from`, to be used as `msg` says.
    Receive { sender: String, from: String, amount: u128, msg: ReceiveMsg },
    CreateViewingKey { entropy: String },
    SetViewingKey { key: String },
    /// Take out the sender's whole stake and forfeit the rewards owed.
    EmergencyRedeem,
    SetDeadline { block: u64 },
    /// Sweep the pool's reward balance to `to`, or to the admin.
    ClaimRewardPool { to: Option<String> },
    StopContract,
    ResumeContract,
    ChangeAdmin { address: String },
}

/// The answers to the messages that are not token receipts.
#[derive(Debug, PartialEq, Eq)]
pub enum HandleAnswer {
    Redeem { status: ResponseStatus },
    CreateViewingKey { key: ViewingKey },
    SetViewingKey { status: ResponseStatus },
    StopContract { status: ResponseStatus },
    ResumeContract { status: ResponseStatus },
    ChangeAdmin { status: ResponseStatus },
    SetDeadline { status: ResponseStatus },
    ClaimRewardPool { status: ResponseStatus },
    EmergencyRedeem { status: ResponseStatus },
}

/// The answers to token receipts.
#[derive(Debug, PartialEq, Eq)]
pub enum ReceiveAnswer {
    Deposit { status: ResponseStatus },
    DepositRewards { status: ResponseStatus },
}

/// The answer that a response carries.
#[derive(Debug, PartialEq, Eq)]
pub enum HandleData {
    Handle(HandleAnswer),
    Receive(ReceiveAnswer),
}

/// The response of a pool to a state-changing message.
pub type Response = HandleResponse<HandleData>;

/// The questions a pool answers.
#[derive(Debug, PartialEq, Eq)]
pub enum QueryMsg {
    ClaimBlock,
    ContractStatus,
    RewardToken,
    IncentivizedToken,
    EndHeight,
    RewardPoolBalance,
    TokenInfo,
    /// What the pool would owe `address` at block `height`; needs the
    /// address's viewing key.
    Rewards { address: String, height: u64, key: String },
    /// What `address` has locked; needs the address's viewing key.
    Deposit { address: String, key: String },
}

impl QueryMsg {
    /// Whether the question is answered only to the holder of a viewing key.
    pub open spec fn is_authenticated(&self) -> bool {
        self is Rewards || self is Deposit
    }

    /// The address that an authenticated question is about.
    pub open spec fn subject(&self) -> String {
        match self {
            QueryMsg::Rewards { address, .. } => *address,
            QueryMsg::Deposit { address, .. } => *address,
            _ => arbitrary(),
        }
    }

    /// The text of the key that an authenticated question presents.
    pub open spec fn presented_key(&self) -> String {
        match self {
            QueryMsg::Rewards { key, .. } => *key,
            QueryMsg::Deposit { key, .. } => *key,
            _ => arbitrary(),
        }
    }

    /// The address an authenticated question is about and the key it
    /// presents.
    pub fn get_validation_params(&self) -> (params: (&String, ViewingKey))
        requires
            self.is_authenticated(),
        ensures
            *params.0 == self.subject(),
            params.1.0 == self.presented_key(),
    {
        match self {
            QueryMsg::Rewards { address, key, .. } => (address, ViewingKey(key.clone())),
            QueryMsg::Deposit { address, key } => (address, ViewingKey(key.clone())),
            _ => unreached(),
        }
    }
}

/// The answers to questions.
#[derive(Debug, PartialEq, Eq)]
pub enum QueryAnswer {
    TokenInfo { name: String, symbol: String, decimals: u8, total_supply: Option<u128> },
    Rewards { rewards: u128 },
    Deposit { deposit: u128 },
    ContractStatus { is_stopped: bool },
    RewardToken { token: SecretContract },
    IncentivizedToken { token: SecretContract },
    EndHeight { height: u64 },
    ClaimBlock { height: u64 },
    RewardPoolBalance { balance: u128 },
    QueryError { msg: String },
}

} // verus!
