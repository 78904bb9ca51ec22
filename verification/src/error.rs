//! The ways in which an operation of a contract can fail.
//!
//! Every failure aborts the operation and leaves the contract's state as it
//! was. Nothing is retried.

use vstd::prelude::*;
use vstd::string::*;
use crate::text::{decimal, decimal_text};

verus! {

/// The broad kind of a failure.
#[derive(Clone, Copy, Debug, PartialEq, Eq)]
pub enum ErrorKind {
    /// The caller is not who the operation is reserved for.
    Unauthorized,
    /// The contract is stopped and the operation is not one of the two that
    /// a stopped contract accepts.
    ContractStopped,
    /// The message asks for something that makes no sense.
    InvalidInput,
    /// More was asked for than there is.
    InsufficientFunds,
    /// The operation is not yet due.
    Precondition,
    /// Another contract did not answer a question.
    ExternalQueryFailure,
    /// A quantity left the range of the integers that hold it.
    Arithmetic,
}

/// A failed operation, with what is needed to report it.
#[derive(Debug, PartialEq, Eq)]
pub enum ContractError {
    /// `sender` called an operation reserved for the admin.
    NotAdmin { sender: String },
    /// The caller is not among those the operation is reserved for.
    Unauthorized,
    /// Tokens arrived from `given`, but only `supported` may deposit here.
    UnsupportedToken { supported: String, given: String },
    /// The contract is stopped.
    ContractStopped,
    /// The operation is not on offer in the contract's present state.
    UnavailableAction,
    /// A reward deposit of `amount` does not exceed the dust withheld from it.
    InvalidAmount { amount: u128 },
    /// The deadline asked for, `height`, lies before block `block`.
    DeadlinePassed { height: u64, block: u64 },
    /// Two segments of a schedule end at the same block.
    DuplicateEndBlock,
    /// `required` was asked for but only `balance` is there.
    InsufficientFunds { balance: u128, required: u128 },
    /// The reward pool cannot be claimed before block `claim_block`.
    ClaimTooEarly { claim_block: u64 },
    /// A balance query failed for the reason given.
    BalanceQueryFailed { reason: String },
    /// A trading pair did not answer when asked for its assets.
    PairQueryFailed { reason: String },
    /// Pairs were named without the code hash of the pair contracts.
    MissingPairHash,
    /// Neither side of a trading pair is SCRT.
    PairWithoutScrt,
    /// A poll has no choice with the number `choice`.
    UnknownChoice { choice: u8 },
    /// A poll was given more choices than it can number.
    TooManyChoices,
    /// A sum, product or difference does not fit its integer type, or a
    /// division has no divisor.
    Arithmetic,
}

impl ContractError {
    /// The kind of this failure.
    pub open spec fn spec_kind(&self) -> ErrorKind {
        match self {
            ContractError::NotAdmin { .. } => ErrorKind::Unauthorized,
            ContractError::Unauthorized => ErrorKind::Unauthorized,
            ContractError::UnsupportedToken { .. } => ErrorKind::Unauthorized,
            ContractError::ContractStopped => ErrorKind::ContractStopped,
            ContractError::UnavailableAction => ErrorKind::InvalidInput,
            ContractError::InvalidAmount { .. } => ErrorKind::InvalidInput,
            ContractError::DeadlinePassed { .. } => ErrorKind::InvalidInput,
            ContractError::DuplicateEndBlock => ErrorKind::InvalidInput,
            ContractError::InsufficientFunds { .. } => ErrorKind::InsufficientFunds,
            ContractError::ClaimTooEarly { .. } => ErrorKind::Precondition,
            ContractError::BalanceQueryFailed { .. } => ErrorKind::ExternalQueryFailure,
            ContractError::PairQueryFailed { .. } => ErrorKind::ExternalQueryFailure,
            ContractError::MissingPairHash => ErrorKind::InvalidInput,
            ContractError::PairWithoutScrt => ErrorKind::InvalidInput,
            ContractError::UnknownChoice { .. } => ErrorKind::InvalidInput,
            ContractError::TooManyChoices => ErrorKind::InvalidInput,
            ContractError::Arithmetic => ErrorKind::Arithmetic,
        }
    }

    /// The text that reports this failure.
    pub open spec fn message_text(&self) -> Seq<char> {
        match self {
            ContractError::NotAdmin { sender } => "not an admin: "@ + sender@,
            ContractError::Unauthorized => "Unauthorized"@,
            ContractError::UnsupportedToken { supported, given } =>
                "This token is not supported. Supported: "@ + supported@ + ", given: "@ + given@,
            ContractError::ContractStopped =>
                "this contract is stopped and this action is not allowed"@,
            ContractError::UnavailableAction => "Unavailable or unknown action"@,
            ContractError::InvalidAmount { amount } =>
                "reward deposit does not exceed the withheld dust: "@ + decimal_text(
                    *amount as nat,
                ),
            ContractError::DeadlinePassed { height, block } => "deadline "@ + decimal_text(
                *height as nat,
            ) + " lies before block "@ + decimal_text(*block as nat),
            ContractError::DuplicateEndBlock => "two schedule segments end at the same block"@,
            ContractError::InsufficientFunds { balance, required } =>
                "insufficient funds to redeem: balance="@ + decimal_text(*balance as nat)
                    + ", required="@ + decimal_text(*required as nat),
            ContractError::ClaimTooEarly { claim_block } =>
                "minimum claim height hasn't passed yet: "@ + decimal_text(*claim_block as nat),
            ContractError::BalanceQueryFailed { reason } => "Error performing Balance query: "@
                + reason@,
            ContractError::PairQueryFailed { reason } => "Error performing Pair query: "@
                + reason@,
            ContractError::MissingPairHash =>
                "when providing pairs, you have to provide pair contract hash as well"@,
            ContractError::PairWithoutScrt => "one of the sides of the pair has to be SCRT"@,
            ContractError::UnknownChoice { choice } => "choice "@ + decimal_text(*choice as nat)
                + " does not exist in this poll"@,
            ContractError::TooManyChoices =>
                "the number of choices for a poll cannot exceed 254"@,
            ContractError::Arithmetic => "arithmetic overflow"@,
        }
    }

    /// The text that reports this failure.
    pub fn message(&self) -> (text: String)
        ensures
            text@ == self.message_text(),
    {
        match self {
            ContractError::NotAdmin { sender } => String::from_str("not an admin: ").concat(
                sender.as_str(),
            ),
            ContractError::Unauthorized => String::from_str("Unauthorized"),
            ContractError::UnsupportedToken { supported, given } => String::from_str(
                "This token is not supported. Supported: ",
            ).concat(supported.as_str()).concat(", given: ").concat(given.as_str()),
            ContractError::ContractStopped => String::from_str(
                "this contract is stopped and this action is not allowed",
            ),
            ContractError::UnavailableAction => String::from_str("Unavailable or unknown action"),
            ContractError::InvalidAmount { amount } => String::from_str(
                "reward deposit does not exceed the withheld dust: ",
            ).concat(decimal(*amount).as_str()),
            ContractError::DeadlinePassed { height, block } => String::from_str(
                "deadline ",
            ).concat(decimal(*height as u128).as_str()).concat(" lies before block ").concat(
                decimal(*block as u128).as_str(),
            ),
            ContractError::DuplicateEndBlock => String::from_str(
                "two schedule segments end at the same block",
            ),
            ContractError::InsufficientFunds { balance, required } => String::from_str(
                "insufficient funds to redeem: balance=",
            ).concat(decimal(*balance).as_str()).concat(", required=").concat(
                decimal(*required).as_str(),
            ),
            ContractError::ClaimTooEarly { claim_block } => String::from_str(
                "minimum claim height hasn't passed yet: ",
            ).concat(decimal(*claim_block as u128).as_str()),
            ContractError::BalanceQueryFailed { reason } => String::from_str(
                "Error performing Balance query: ",
            ).concat(reason.as_str()),
            ContractError::PairQueryFailed { reason } => String::from_str(
                "Error performing Pair query: ",
            ).concat(reason.as_str()),
            ContractError::MissingPairHash => String::from_str(
                "when providing pairs, you have to provide pair contract hash as well",
            ),
            ContractError::PairWithoutScrt => String::from_str(
                "one of the sides of the pair has to be SCRT",
            ),
            ContractError::UnknownChoice { choice } => String::from_str("choice ").concat(
                decimal(*choice as u128).as_str(),
            ).concat(" does not exist in this poll"),
            ContractError::TooManyChoices => String::from_str(
                "the number of choices for a poll cannot exceed 254",
            ),
            ContractError::Arithmetic => String::from_str("arithmetic overflow"),
        }
    }

    /// The kind of this failure.
    #[verifier::when_used_as_spec(spec_kind)]
    pub fn kind(&self) -> (kind: ErrorKind)
        ensures
            kind == self.spec_kind(),
    {
        match self {
            ContractError::NotAdmin { .. } => ErrorKind::Unauthorized,
            ContractError::Unauthorized => ErrorKind::Unauthorized,
            ContractError::UnsupportedToken { .. } => ErrorKind::Unauthorized,
            ContractError::ContractStopped => ErrorKind::ContractStopped,
            ContractError::UnavailableAction => ErrorKind::InvalidInput,
            ContractError::InvalidAmount { .. } => ErrorKind::InvalidInput,
            ContractError::DeadlinePassed { .. } => ErrorKind::InvalidInput,
            ContractError::DuplicateEndBlock => ErrorKind::InvalidInput,
            ContractError::InsufficientFunds { .. } => ErrorKind::InsufficientFunds,
            ContractError::ClaimTooEarly { .. } => ErrorKind::Precondition,
            ContractError::BalanceQueryFailed { .. } => ErrorKind::ExternalQueryFailure,
            ContractError::PairQueryFailed { .. } => ErrorKind::ExternalQueryFailure,
            ContractError::MissingPairHash => ErrorKind::InvalidInput,
            ContractError::PairWithoutScrt => ErrorKind::InvalidInput,
            ContractError::UnknownChoice { .. } => ErrorKind::InvalidInput,
            ContractError::TooManyChoices => ErrorKind::InvalidInput,
            ContractError::Arithmetic => ErrorKind::Arithmetic,
        }
    }
}

/// Fails with `NotAdmin` unless `sender` is `admin`.
pub fn enforce_admin(admin: &String, sender: &String) -> (res: Result<(), ContractError>)
    ensures
        res is Ok <==> admin@ == sender@,
        res is Err ==> res == Err::<(), ContractError>(ContractError::NotAdmin { sender: *sender }),
{
    if *admin != *sender {
        return Err(ContractError::NotAdmin { sender: sender.clone() });
    }
    Ok(())
}

} // verus!
