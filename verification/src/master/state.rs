//! What the allocator keeps on record, and the rule by which a sink's share
//! of the mint is computed.
//!
//! A sink is settled lazily: whenever it is looked at, it is paid what the
//! schedule minted since it was last looked at, times its weight, divided by
//! the weight of all sinks. Because every change of a weight settles the
//! sink first, the weights are constant between two settlements.

use vstd::prelude::*;
use crate::schedule::{Schedule, ScheduleUnit, integrate, minted_between};
use crate::store::Store;

verus! {

/// The allocator's own settings.
#[derive(Debug, PartialEq, Eq)]
pub struct State {
    pub admin: String,
    pub gov_token_addr: String,
    pub gov_token_hash: String,
    /// The sum of the weights of all sinks.
    pub total_weight: u64,
    pub minting_schedule: Schedule,
}

/// What the allocator knows about one sink.
#[derive(Clone, Copy, Debug, PartialEq, Eq)]
pub struct SpySettings {
    /// The sink's share of the mint is its weight over the total weight.
    pub weight: u64,
    /// The block up to which the sink has been paid.
    pub last_update_block: u64,
}

/// A sink's record, under the name the allocator's first interface gave it.
pub type RewardContract = SpySettings;

/// A sink and the weight it is to have.
#[derive(Debug, PartialEq, Eq)]
pub struct WeightInfo {
    pub address: String,
    pub hash: String,
    pub weight: u64,
}

/// The whole of an allocator: its settings and its sinks.
pub struct Master {
    pub state: State,
    pub spies: Store<SpySettings>,
}

/// The measure that adds up to the total weight: a sink's weight.
pub open spec fn weight_of() -> spec_fn(SpySettings) -> int {
    |spy: SpySettings| spy.weight as int
}

/// The record of the sink at `address`; a sink that the allocator has not
/// seen yet has no weight and is paid up to the present block.
pub open spec fn spy_or_default(
    spies: Map<Seq<char>, SpySettings>,
    address: Seq<char>,
    block: u64,
) -> SpySettings {
    if spies.contains_key(address) {
        spies[address]
    } else {
        SpySettings { weight: 0, last_update_block: block }
    }
}

/// Whether a look at the sink at `block` pays it anything: it has weight and
/// was last paid before `block`.
pub open spec fn is_settled(spy: SpySettings, block: u64) -> bool {
    spy.last_update_block < block && spy.weight > 0
}

/// The sink's share of what the schedule minted since the sink was last
/// paid: the mint times the sink's weight, divided by the total weight and
/// rounded down.
pub open spec fn spy_rewards(
    schedule: Seq<ScheduleUnit>,
    spy: SpySettings,
    total_weight: u64,
    block: u64,
) -> int {
    minted_between(schedule, spy.last_update_block as int, block as int) * spy.weight / (
    total_weight as int)
}

/// Whether the sink's share can be computed: there is weight to divide by,
/// and both the mint and its product with the sink's weight fit in 128 bits.
pub open spec fn rewards_fit(
    schedule: Seq<ScheduleUnit>,
    spy: SpySettings,
    total_weight: u64,
    block: u64,
) -> bool {
    &&& total_weight > 0
    &&& minted_between(schedule, spy.last_update_block as int, block as int) <= u128::MAX
    &&& minted_between(schedule, spy.last_update_block as int, block as int) * spy.weight
        <= u128::MAX
}

/// The sink's share of the mint between its last payment and
/// `current_block`, or `None` when it cannot be computed.
pub fn get_spy_rewards(
    current_block: u64,
    total_weight: u64,
    schedule: &Schedule,
    spy_settings: SpySettings,
) -> (rewards: Option<u128>)
    ensures
        rewards is Some <==> rewards_fit(schedule@, spy_settings, total_weight, current_block),
        rewards is Some ==> rewards->0 == spy_rewards(
            schedule@,
            spy_settings,
            total_weight,
            current_block,
        ),
{
    if total_weight == 0 {
        return None;
    }
    let minted = match integrate(schedule, spy_settings.last_update_block, current_block) {
        Some(minted) => minted,
        None => {
            return None;
        },
    };
    match minted.checked_mul(spy_settings.weight as u128) {
        Some(product) => Some(product / (total_weight as u128)),
        None => None,
    }
}

impl Master {
    /// The total weight on record is the sum of the sinks' weights.
    pub open spec fn weights_match(&self) -> bool {
        self.state.total_weight == self.spies.total(weight_of())
    }

    /// The schedule is sorted and no two of its segments end at the same
    /// block.
    pub open spec fn schedule_ordered(&self) -> bool {
        crate::schedule::is_strictly_sorted(self.state.minting_schedule@)
    }

    /// The record of the sink at `address` as a look at `block` finds it.
    pub fn load_spy(&self, address: &String, block: u64) -> (spy: SpySettings)
        ensures
            spy == spy_or_default(self.spies@, address@, block),
    {
        match self.spies.get(address) {
            Some(spy) => *spy,
            None => SpySettings { weight: 0, last_update_block: block },
        }
    }
}

} // verus!
