//! What a staking pool keeps on record, and the arithmetic of vesting.
//!
//! The pool never walks over its stakers. It keeps one accumulator, the
//! reward earned so far by one unit of stake, and every staker remembers how
//! much of the accumulator was already settled with them.

use vstd::prelude::*;
use crate::constants::REWARD_SCALE;
use crate::error::ContractError;
use crate::store::Store;
use crate::types::SecretContract;

verus! {

/// The settings of a staking pool.
#[derive(Debug, PartialEq, Eq)]
pub struct Config {
    pub admin: String,
    /// The token that rewards are paid in.
    pub reward_token: SecretContract,
    /// The token that stakers lock.
    pub inc_token: SecretContract,
    /// The allocator that feeds this pool.
    pub master: SecretContract,
    /// The block at which vesting ends.
    pub deadline: u64,
    /// The first block at which the admin may sweep the pool.
    pub pool_claim_block: u64,
    pub is_stopped: bool,
    /// The key with which the pool reads its own token balances.
    pub viewing_key: String,
    /// The seed from which viewing keys are derived.
    pub prng_seed: Vec<u8>,
}

/// The pool's running totals.
#[derive(Clone, Copy, Debug, PartialEq, Eq)]
pub struct RewardPool {
    /// Rewards deposited and not yet vested.
    pub pending_rewards: u128,
    /// The stake locked by all stakers together.
    pub inc_token_supply: u128,
    /// The block up to which vesting has been settled.
    pub last_reward_block: u64,
    /// The reward vested so far per unit of stake, scaled by `REWARD_SCALE`.
    pub acc_reward_per_share: u128,
}

/// One staker's record.
#[derive(Clone, Copy, Debug, PartialEq, Eq)]
pub struct UserInfo {
    /// The stake the staker has locked.
    pub locked: u128,
    /// The part of the staker's entitlement that is already settled.
    pub debt: u128,
}

/// The name and symbol under which wallets list the pool.
#[derive(Debug, PartialEq, Eq)]
pub struct TokenInfo {
    pub name: String,
    pub symbol: String,
}

/// The whole of a staking pool: settings, totals, stakers and the digests of
/// their viewing keys.
pub struct LpStaking {
    pub config: Config,
    pub reward_pool: RewardPool,
    pub users: Store<UserInfo>,
    pub viewing_keys: Store<Vec<u8>>,
}

/// The block at which a pool is settled when it is asked at `block`: never
/// later than the deadline.
pub open spec fn settle_block(block: u64, deadline: u64) -> u64 {
    if block > deadline {
        deadline
    } else {
        block
    }
}

/// The measure that adds up to a pool's supply: a staker's locked stake.
pub open spec fn locked_amount() -> spec_fn(UserInfo) -> int {
    |user: UserInfo| user.locked as int
}

impl RewardPool {
    /// Whether settling at `block` moves the pool forward at all.
    pub open spec fn is_due(self, block: u64, deadline: u64) -> bool {
        settle_block(block, deadline) > self.last_reward_block && self.last_reward_block < deadline
    }

    /// Whether settling at `block` vests rewards: the pool is due, and there
    /// are both stake and rewards.
    pub open spec fn accrues(self, block: u64, deadline: u64) -> bool {
        self.is_due(block, deadline) && self.inc_token_supply != 0 && self.pending_rewards != 0
    }

    /// The rewards that vest when the pool is settled at `block`: the share
    /// of the pending rewards that the blocks since the last settlement are
    /// of the blocks left until the deadline.
    pub open spec fn vested(self, block: u64, deadline: u64) -> int {
        if self.accrues(block, deadline) {
            (settle_block(block, deadline) - self.last_reward_block) * self.pending_rewards / (
            deadline - self.last_reward_block)
        } else {
            0
        }
    }

    /// By how much the accumulator grows when the pool is settled at `block`.
    pub open spec fn share_gain(self, block: u64, deadline: u64) -> int {
        if self.accrues(block, deadline) {
            self.vested(block, deadline) * REWARD_SCALE / (self.inc_token_supply as int)
        } else {
            0
        }
    }

    /// Whether every quantity of a settlement at `block` fits in 128 bits.
    pub open spec fn update_fits(self, block: u64, deadline: u64) -> bool {
        self.accrues(block, deadline) ==> {
            &&& (settle_block(block, deadline) - self.last_reward_block) * self.pending_rewards
                <= u128::MAX
            &&& self.vested(block, deadline) * REWARD_SCALE <= u128::MAX
            &&& self.acc_reward_per_share + self.share_gain(block, deadline) <= u128::MAX
        }
    }

    /// The pool after it has been settled at `block`.
    pub open spec fn updated(self, block: u64, deadline: u64) -> RewardPool {
        if self.is_due(block, deadline) {
            RewardPool {
                pending_rewards: (self.pending_rewards - self.vested(block, deadline)) as u128,
                inc_token_supply: self.inc_token_supply,
                last_reward_block: settle_block(block, deadline),
                acc_reward_per_share: (self.acc_reward_per_share + self.share_gain(
                    block,
                    deadline,
                )) as u128,
            }
        } else {
            self
        }
    }

    /// No more vests than is pending.
    pub proof fn lemma_vested_bounds(self, block: u64, deadline: u64)
        ensures
            0 <= self.vested(block, deadline) <= self.pending_rewards,
            0 <= self.share_gain(block, deadline),
            self.share_gain(block, deadline) * self.inc_token_supply <= self.vested(block, deadline)
                * REWARD_SCALE,
    {
        if self.accrues(block, deadline) {
            let vest = settle_block(block, deadline) - self.last_reward_block;
            let go = deadline - self.last_reward_block;
            let pending = self.pending_rewards as int;
            let supply = self.inc_token_supply as int;
            assert(0 <= vest * pending / go <= pending) by (nonlinear_arith)
                requires
                    0 < vest <= go,
                    0 <= pending,
            ;
            let vested = self.vested(block, deadline);
            let scale = REWARD_SCALE as int;
            assert(0 <= vested * scale / supply && (vested * scale / supply) * supply <= vested
                * scale) by (nonlinear_arith)
                requires
                    0 <= vested,
                    0 < scale,
                    0 < supply,
            ;
        }
    }

    /// Settles the pool at `block`: the rewards that vested since the last
    /// settlement leave the pending rewards and raise the accumulator. Past
    /// the deadline nothing vests. Fails, and changes nothing, when a
    /// quantity does not fit in 128 bits.
    pub fn update_rewards(&mut self, block: u64, deadline: u64) -> (res: Result<(), ContractError>)
        ensures
            old(self).update_fits(block, deadline) ==> res is Ok && *final(self) == old(
                self,
            ).updated(block, deadline),
            !old(self).update_fits(block, deadline) ==> res == Err::<(), ContractError>(
                ContractError::Arithmetic,
            ) && *final(self) == *old(self),
            final(self).acc_reward_per_share >= old(self).acc_reward_per_share,
            final(self).last_reward_block >= old(self).last_reward_block,
            final(self).last_reward_block <= deadline || final(self).last_reward_block == old(
                self,
            ).last_reward_block,
            final(self).pending_rewards <= old(self).pending_rewards,
            final(self).inc_token_supply == old(self).inc_token_supply,
    {
        proof {
            self.lemma_vested_bounds(block, deadline);
        }
        let mut block = block;
        if block > deadline {
            block = deadline;
        }
        if block <= self.last_reward_block || self.last_reward_block >= deadline {
            return Ok(());
        }
        if self.inc_token_supply == 0 || self.pending_rewards == 0 {
            self.last_reward_block = block;
            return Ok(());
        }
        let blocks_to_go: u128 = (deadline - self.last_reward_block) as u128;
        let blocks_to_vest: u128 = (block - self.last_reward_block) as u128;
        let product = match blocks_to_vest.checked_mul(self.pending_rewards) {
            Some(product) => product,
            None => {
                return Err(ContractError::Arithmetic);
            },
        };
        let rewards: u128 = product / blocks_to_go;
        let scaled = match rewards.checked_mul(REWARD_SCALE) {
            Some(scaled) => scaled,
            None => {
                return Err(ContractError::Arithmetic);
            },
        };
        let gain: u128 = scaled / self.inc_token_supply;
        let accumulated = match self.acc_reward_per_share.checked_add(gain) {
            Some(accumulated) => accumulated,
            None => {
                return Err(ContractError::Arithmetic);
            },
        };
        self.acc_reward_per_share = accumulated;
        self.pending_rewards = self.pending_rewards - rewards;
        self.last_reward_block = block;
        Ok(())
    }
}

impl UserInfo {
    /// What the staker's stake has earned since the pool began, at the
    /// accumulator value `acc`.
    pub open spec fn entitlement(self, acc: u128) -> int {
        self.locked * acc / (REWARD_SCALE as int)
    }

    /// What the pool owes the staker at the accumulator value `acc`.
    pub open spec fn pending(self, acc: u128) -> int {
        self.entitlement(acc) - self.debt
    }
}

/// A higher accumulator entitles a stake to no less.
pub proof fn lemma_entitlement_grows(user: UserInfo, low: u128, high: u128)
    requires
        low <= high,
    ensures
        0 <= user.entitlement(low) <= user.entitlement(high),
{
    let locked = user.locked as int;
    let scale = REWARD_SCALE as int;
    assert(0 <= locked * low / scale <= locked * high / scale) by (nonlinear_arith)
        requires
            0 <= locked,
            0 <= low <= high,
            0 < scale,
    ;
}

/// A smaller stake is entitled to no more.
pub proof fn lemma_entitlement_of_part(part: u128, whole: u128, acc: u128)
    requires
        part <= whole,
    ensures
        0 <= part * acc <= whole * acc,
        0 <= part * acc / (REWARD_SCALE as int) <= whole * acc / (REWARD_SCALE as int),
{
    let scale = REWARD_SCALE as int;
    assert(0 <= part * acc <= whole * acc && 0 <= part * acc / scale <= whole * acc / scale)
        by (nonlinear_arith)
        requires
            0 <= part <= whole,
            0 <= acc,
            0 < scale,
    ;
}

/// What a stake of `locked` has earned at the accumulator value `acc`, or
/// `None` when the product does not fit in 128 bits.
pub fn entitlement(locked: u128, acc: u128) -> (earned: Option<u128>)
    ensures
        earned is Some <==> locked * acc <= u128::MAX,
        earned is Some ==> earned->0 == locked * acc / (REWARD_SCALE as int),
{
    match locked.checked_mul(acc) {
        Some(product) => Some(product / REWARD_SCALE),
        None => None,
    }
}

/// What the pool owes `user` at the accumulator value `acc`, or `None` when
/// the entitlement does not fit in 128 bits or is less than the debt.
pub fn pending_reward(user: &UserInfo, acc: u128) -> (owed: Option<u128>)
    ensures
        owed is Some <==> user.locked * acc <= u128::MAX && user.pending(acc) >= 0,
        owed is Some ==> owed->0 == user.pending(acc),
{
    match entitlement(user.locked, acc) {
        Some(earned) => earned.checked_sub(user.debt),
        None => None,
    }
}

impl LpStaking {
    /// The record of the staker at `address`; one without stake or debt when
    /// the address has never staked.
    pub open spec fn user(&self, address: Seq<char>) -> UserInfo {
        if self.users@.contains_key(address) {
            self.users@[address]
        } else {
            UserInfo { locked: 0, debt: 0 }
        }
    }

    /// The supply on record is the sum of what the stakers have locked.
    pub open spec fn supply_matches(&self) -> bool {
        self.reward_pool.inc_token_supply == self.users.total(locked_amount())
    }

    /// No staker's debt exceeds what their stake has earned, so that what
    /// the pool owes a staker is never negative.
    pub open spec fn debts_covered(&self) -> bool {
        forall|address: Seq<char>| #[trigger]
            self.users@.contains_key(address) ==> self.users@[address].pending(
                self.reward_pool.acc_reward_per_share,
            ) >= 0
    }

    /// Vesting has not been settled beyond the deadline.
    pub open spec fn within_epoch(&self) -> bool {
        self.reward_pool.last_reward_block <= self.config.deadline
    }

    /// The record of the staker at `address`.
    pub fn load_user(&self, address: &String) -> (user: UserInfo)
        ensures
            user == self.user(address@),
    {
        match self.users.get(address) {
            Some(user) => *user,
            None => UserInfo { locked: 0, debt: 0 },
        }
    }
}

} // verus!
