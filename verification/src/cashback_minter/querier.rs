//! What the minter asks a trading pair, and what a pair answers.

use vstd::prelude::*;
use crate::cashback_minter::state::AssetInfo;

verus! {

/// The question put to a trading pair.
#[derive(Clone, Copy, Debug, PartialEq, Eq)]
pub enum PairQueryMsg {
    Pair,
}

/// A trading pair's description of itself.
#[derive(Debug, PartialEq, Eq)]
pub struct PairInfo {
    pub asset_infos: [AssetInfo; 2],
    pub contract_addr: String,
    pub liquidity_token: String,
    pub token_code_hash: String,
    pub asset0_volume: u128,
    pub asset1_volume: u128,
}

/// What came of asking the pair at `pair` for its description. The host
/// asks; the minter decides what follows from the answer.
#[derive(Debug, PartialEq, Eq)]
pub enum PairLookup {
    Info(PairInfo),
    Failed(String),
}

/// A pair that is to be supported, with what it answered.
#[derive(Debug, PartialEq, Eq)]
pub struct PairAnswer {
    pub pair: String,
    pub answer: PairLookup,
}

} // verus!
