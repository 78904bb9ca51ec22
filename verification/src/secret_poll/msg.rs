//! The messages a poll accepts.

use vstd::prelude::*;
use crate::secret_poll::state::{PollConfig, PollMetadata};
use crate::types::{HandleResponse, ResponseStatus, SecretContract};

verus! {

/// What a poll is created with.
#[derive(Debug, PartialEq, Eq)]
pub struct InitMsg {
    pub metadata: PollMetadata,
    pub config: PollConfig,
    pub choices: Vec<String>,
    pub staking_pool: SecretContract,
}

/// The state-changing messages of a poll.
#[derive(Debug, PartialEq, Eq)]
pub enum HandleMsg {
    /// Vote for the choice with the number `choice`.
    Vote { choice: u8, staking_pool_viewing_key: String },
    UpdateVotingPower { voter: String, new_power: u128 },
    Finalize,
}

/// The questions a poll is to answer.
#[derive(Debug, PartialEq, Eq)]
pub enum QueryMsg {
    Choices,
    HasVoted { voter: String },
    Voters,
    Tally,
    Vote { voter: String, key: String },
}

/// The response of a poll to a state-changing message.
pub type Response = HandleResponse<ResponseStatus>;

} // verus!
