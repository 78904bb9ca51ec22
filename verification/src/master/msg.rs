//! The messages an allocator accepts and the answers it gives.

use vstd::prelude::*;
use crate::master::state::WeightInfo;
use crate::schedule::Schedule;
use crate::types::HandleResponse;

verus! {

/// What an allocator is created with.
#[derive(Debug, PartialEq, Eq)]
pub struct InitMsg {
    pub gov_token_addr: String,
    pub gov_token_hash: String,
    pub minting_schedule: Schedule,
}

/// The state-changing messages of an allocator.
#[derive(Debug, PartialEq, Eq)]
pub enum MasterHandleMsg {
    /// Pay the sink `spy_addr` what it is due and call it back with `hook`.
    UpdateAllocation { spy_addr: String, spy_hash: String, hook: Option<Vec<u8>> },
    SetWeights { weights: Vec<WeightInfo> },
    SetSchedule { schedule: Schedule },
    SetGovToken { addr: String, hash: String },
    ChangeAdmin { addr: String },
}

/// The answer to a state-changing message.
#[derive(Clone, Copy, Debug, PartialEq, Eq)]
pub enum HandleAnswer {
    Success,
    Failure,
}

/// The response of an allocator to a state-changing message.
pub type Response = HandleResponse<HandleAnswer>;

/// The questions an allocator answers.
#[derive(Debug, PartialEq, Eq)]
pub enum QueryMsg {
    Admin,
    GovToken,
    Schedule,
    SpyWeight { addr: String },
}

/// The answers to questions.
#[derive(Debug, PartialEq, Eq)]
pub enum QueryAnswer {
    Admin { address: String },
    GovToken { token_addr: String, token_hash: String },
    Schedule { schedule: Schedule },
    SpyWeight { weight: u64 },
}

} // verus!
