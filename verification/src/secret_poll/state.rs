//! What a poll keeps on record.

use vstd::prelude::*;
use crate::store::Store;
use crate::types::SecretContract;

verus! {

/// The most choices a poll can have: choices are numbered from one in a
/// single byte, and the last number is kept free.
pub const MAX_CHOICES: usize = 254;

/// The rules of a poll.
#[derive(Debug, PartialEq, Eq)]
pub struct PollConfig {
    pub duration: Option<u64>,
    /// The share of all voting power that must vote, in percent.
    pub quorum: Option<u8>,
    /// The share of the votes that a choice must reach, in percent.
    pub min_threshold: Option<u8>,
}

/// What a poll is about.
#[derive(Debug, PartialEq, Eq)]
pub struct PollMetadata {
    pub title: String,
    pub description: String,
    pub author: String,
}

/// One voter's vote.
#[derive(Clone, Copy, Debug, PartialEq, Eq)]
pub struct Vote {
    pub choice: u8,
    pub voting_power: u128,
}

/// A choice with the number under which it is voted for.
pub type ChoiceIdMap = Vec<(u8, String)>;

/// The whole of a poll.
pub struct SecretPoll {
    pub owner: String,
    pub metadata: PollMetadata,
    pub config: PollConfig,
    pub staking_pool: SecretContract,
    /// The choices, numbered from one in their order.
    pub choices: ChoiceIdMap,
    /// The voting power cast for each choice, in the order of the choices.
    pub tally: Vec<u128>,
    pub votes: Store<Vote>,
}

impl SecretPoll {
    /// The choices are numbered from one, and each has its tally.
    pub open spec fn is_numbered(&self) -> bool {
        &&& self.choices@.len() <= MAX_CHOICES
        &&& self.tally@.len() == self.choices@.len()
        &&& forall|i: int| 0 <= i < self.choices@.len() ==> (#[trigger] self.choices@[i]).0 == i + 1
    }

    /// Whether the poll has a choice with the number `choice`, and a tally
    /// for it.
    pub open spec fn has_choice(&self, choice: u8) -> bool {
        1 <= choice <= self.choices@.len() && choice <= self.tally@.len()
    }
}

} // verus!
