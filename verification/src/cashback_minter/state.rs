//! What a cashback minter keeps on record.

use vstd::prelude::*;
use crate::store::Store;
use crate::text::{lowercase_text, to_lowercase};
use crate::types::SecretContract;

verus! {

/// One side of a trade: a token contract or a native coin.
#[derive(Debug, PartialEq, Eq)]
pub enum AssetInfo {
    Token { contract_addr: String, token_code_hash: String, viewing_key: String },
    NativeToken { denom: String },
}

/// An amount of an asset.
#[derive(Debug, PartialEq, Eq)]
pub struct Asset {
    pub info: AssetInfo,
    pub amount: u128,
}

/// The two assets of a trading pair.
#[derive(Debug, PartialEq, Eq)]
pub struct Pair {
    pub asset_0: String,
    pub asset_1: String,
}

/// The whole of a minter: the SCRT token it looks for, the token it mints,
/// its admin and the trading pairs it supports.
pub struct CashbackMinter {
    pub sscrt_addr: String,
    pub cashback: SecretContract,
    pub admin: String,
    pub pairs: Store<u8>,
}

/// Whether `asset` is SCRT: the token at `sscrt`, or the native coin.
pub open spec fn asset_is_scrt(sscrt: Seq<char>, asset: AssetInfo) -> bool {
    match asset {
        AssetInfo::Token { contract_addr, .. } => contract_addr@ == sscrt,
        AssetInfo::NativeToken { denom } => lowercase_text(denom@) == "uscrt"@,
    }
}

/// Whether `asset` is SCRT: the token at `sscrt_addr`, or the native coin.
pub fn is_scrt(sscrt_addr: &String, asset: &AssetInfo) -> (scrt: bool)
    ensures
        scrt == asset_is_scrt(sscrt_addr@, *asset),
{
    match asset {
        AssetInfo::Token { contract_addr, .. } => *contract_addr == *sscrt_addr,
        AssetInfo::NativeToken { denom } => {
            let lower = to_lowercase(denom.as_str());
            let native = "uscrt".to_owned();
            lower == native
        },
    }
}

} // verus!
