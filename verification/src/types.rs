//! Values that all the contracts share: the call environment, contract
//! references, outgoing messages and responses.
//!
//! Addresses and code hashes are text that the contracts never look into;
//! two addresses are the same when their text is the same.

use vstd::prelude::*;

verus! {

/// A contract on the chain: its address and the hash of its code.
#[derive(Debug, PartialEq, Eq)]
pub struct SecretContract {
    pub address: String,
    pub contract_hash: String,
}

impl Clone for SecretContract {
    fn clone(&self) -> (copy: Self)
        ensures
            copy == *self,
    {
        SecretContract { address: self.address.clone(), contract_hash: self.contract_hash.clone() }
    }
}

/// What a contract learns about the call it is serving.
#[derive(Debug, PartialEq, Eq)]
pub struct Env {
    /// Who sent the message.
    pub sender: String,
    /// The height of the block in which the message is executed.
    pub block_height: u64,
    /// The time of that block.
    pub block_time: u64,
    /// The address of the contract that is executing.
    pub contract_address: String,
    /// The code hash of the contract that is executing.
    pub contract_code_hash: String,
}

/// Whether an operation did what it was asked to.
#[derive(Clone, Copy, Debug, PartialEq, Eq)]
pub enum ResponseStatus {
    Success,
    Failure,
}

/// A key and a value that a response adds to the transaction's log.
#[derive(Debug, PartialEq, Eq)]
pub struct LogAttribute {
    pub key: String,
    pub value: String,
}

/// What a log holds, as plain text: the pairs of key and value in order.
pub open spec fn log_entries(log: Seq<LogAttribute>) -> Seq<(Seq<char>, Seq<char>)> {
    log.map_values(|attribute: LogAttribute| (attribute.key@, attribute.value@))
}

/// A log attribute with the given key and value.
pub fn log(key: &str, value: &String) -> (attribute: LogAttribute)
    ensures
        attribute.key@ == key@,
        attribute.value == *value,
{
    LogAttribute { key: key.to_owned(), value: value.clone() }
}

/// What a sink is asked to do once an allocation has reached it.
#[derive(Debug, PartialEq, Eq)]
pub enum HookMsg {
    /// Pay `amount` out to `to`; everything accumulated when no amount is
    /// given.
    Redeem { to: String, amount: Option<u128> },
}

/// A message that a contract sends out when its operation has committed.
/// The host delivers the messages of a response in the order listed.
#[derive(Debug, PartialEq, Eq)]
#[allow(inconsistent_fields)]
pub enum Message {
    /// Mint `amount` of `token` to `recipient`.
    Mint { token: SecretContract, recipient: String, amount: u128, block_size: usize },
    /// Transfer `amount` of `token` from the sending contract to `recipient`.
    Transfer { token: SecretContract, recipient: String, amount: u128, block_size: usize },
    /// Ask `token` to call the contract with code hash `code_hash` back
    /// whenever the contract receives tokens.
    RegisterReceive { token: SecretContract, code_hash: String, block_size: usize },
    /// Set the sending contract's viewing key at `token`.
    SetViewingKey { token: SecretContract, key: String, block_size: usize },
    /// Tell the sink `contract` that `amount` was minted to it. `hook` is the
    /// sink's own encoded instruction, passed on as it came.
    NotifyAllocation { contract: SecretContract, amount: u128, hook: Option<Vec<u8>> },
    /// Ask `master` to settle the allocation of the sink `spy_addr` and to
    /// call the sink back with `hook`.
    UpdateAllocation { master: SecretContract, spy_addr: String, spy_hash: String, hook: Option<HookMsg> },
}

/// The result of initialising a contract.
#[derive(Debug, PartialEq, Eq)]
pub struct InitResponse {
    pub messages: Vec<Message>,
    pub log: Vec<LogAttribute>,
}

/// The result of a state-changing operation whose answer is of type `A`.
#[derive(Debug, PartialEq, Eq)]
pub struct HandleResponse<A> {
    pub messages: Vec<Message>,
    pub log: Vec<LogAttribute>,
    pub data: Option<A>,
}

/// What came of asking another contract for a balance. The host asks; the
/// contract decides what follows from the answer.
#[derive(Debug, PartialEq, Eq)]
pub enum BalanceQuery {
    /// The other contract answered with this amount.
    Balance(u128),
    /// The question could not be answered; the text says why.
    Failed(String),
}

} // verus!
