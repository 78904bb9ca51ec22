//! The messages a cashback minter accepts and the answers it gives.

use vstd::prelude::*;
use crate::cashback_minter::querier::PairAnswer;
use crate::cashback_minter::state::Asset;
use crate::types::{HandleResponse, ResponseStatus, SecretContract};

verus! {

/// What a minter is created with. Pairs can only be named together with the
/// code hash of the pair contracts; `pairs` holds what each pair answered
/// when it was asked for its assets.
#[derive(Debug, PartialEq, Eq)]
pub struct InitMsg {
    pub sscrt_addr: String,
    pub pairs: Option<Vec<PairAnswer>>,
    pub pair_contract_hash: Option<String>,
    pub cashback: SecretContract,
}

/// The state-changing messages of a minter.
#[derive(Debug, PartialEq, Eq)]
#[allow(inconsistent_fields)]
pub enum HandleMsg {
    /// A pair reports a swap of `asset_in` for `asset_out` by `account`.
    ReceiveSwapData { asset_in: Asset, asset_out: Asset, account: String },
    /// Support the pairs named; `pairs` holds what each answered.
    AddPairs { pairs: Vec<PairAnswer>, pair_contract_hash: String },
    RemovePairs { pairs: Vec<String> },
    SetAdmin { address: String },
}

/// The response of a minter to a state-changing message.
pub type Response = HandleResponse<ResponseStatus>;

/// The questions a minter answers.
#[derive(Debug, PartialEq, Eq)]
pub enum QueryMsg {
    IsSupported { pair: String },
    Cashback,
    Admin,
}

/// The answers to questions.
#[derive(Debug, PartialEq, Eq)]
pub enum QueryAnswer {
    IsSupported { is_supported: bool },
    Cashback { address: String },
    Admin { address: String },
}

} // verus!
