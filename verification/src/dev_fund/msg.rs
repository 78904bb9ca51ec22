//! The messages a development fund accepts and the answers it gives.

use vstd::prelude::*;
use crate::types::{HandleResponse, HookMsg, ResponseStatus, SecretContract};

verus! {

/// What a fund is created with. Without a beneficiary, the creator is the
/// beneficiary.
#[derive(Debug, PartialEq, Eq)]
pub struct InitMsg {
    pub sefi: SecretContract,
    pub master: SecretContract,
    pub viewing_key: String,
    pub beneficiary: Option<String>,
}

/// The state-changing messages of a fund.
#[derive(Debug, PartialEq, Eq)]
#[allow(inconsistent_fields)]
pub enum HandleMsg {
    /// Pay `amount`, or everything, to `to`, or to the sender.
    Redeem { amount: Option<u128>, to: Option<String> },
    ChangeAdmin { address: String },
    ChangeBeneficiary { address: String },
    /// Overwrite the accumulated amount with the fund's token balance.
    RefreshBalance,
    /// The allocator's callback: `amount` was minted to the fund.
    NotifyAllocation { amount: u128, hook: Option<HookMsg> },
}

/// The answers to state-changing messages.
#[derive(Clone, Copy, Debug, PartialEq, Eq)]
pub enum HandleAnswer {
    Redeem { status: ResponseStatus },
    ChangeAdmin { status: ResponseStatus },
    ChangeBeneficiary { status: ResponseStatus },
    RefreshBalance { status: ResponseStatus },
}

/// The response of a fund to a state-changing message.
pub type Response = HandleResponse<HandleAnswer>;

/// The questions a fund answers.
#[derive(Clone, Copy, Debug, PartialEq, Eq)]
pub enum QueryMsg {
    Sefi,
    Balance { block: u64 },
    Admin,
    Beneficiary,
}

/// The answers to questions.
#[derive(Debug, PartialEq, Eq)]
pub enum QueryAnswer {
    Balance { amount: u128 },
    Sefi { sefi: SecretContract },
    Admin { address: String },
    Beneficiary { address: String },
}

} // verus!
