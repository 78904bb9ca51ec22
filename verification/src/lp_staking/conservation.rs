//! The pool's books balance: what is deposited as rewards is either still
//! pending, owed to a staker, or paid out, up to what rounding leaves over.

use vstd::prelude::*;
use crate::constants::REWARD_SCALE;
use crate::lp_staking::state::{LpStaking, RewardPool, UserInfo, locked_amount};
use crate::store::{Entry, sum_of};

verus! {

/// The measure of what the pool owes a staker at the accumulator value
/// `acc`: at the accumulator's scale, and before it is rounded down to whole
/// units of the reward token.
pub open spec fn claim_at(acc: int) -> spec_fn(UserInfo) -> int {
    |user: UserInfo| user.locked * acc - user.debt * REWARD_SCALE
}

/// All the rewards that the pool holds, at the accumulator's scale: what it
/// owes its stakers and what is still pending.
pub open spec fn held(pool: LpStaking) -> int {
    pool.users.total(claim_at(pool.reward_pool.acc_reward_per_share as int))
        + pool.reward_pool.pending_rewards * REWARD_SCALE
}

/// That an operation which took the pool from `pre` to `post`, paid out
/// `paid` in rewards and took in `funded`, kept the books balanced up to
/// rounding. Rounding never makes rewards: at most one unit appears to be
/// gained, where a staker's claim is rounded down anew. And rounding loses
/// little: less than one unit where a claim is paid, and less than the
/// supply, at the accumulator's scale, where the accumulator is raised.
/// The statement is made of pools whose supply is the sum of the stakes and
/// whose debts are covered.
pub open spec fn conserves(pre: LpStaking, post: LpStaking, paid: int, funded: int) -> bool {
    pre.supply_matches() && pre.debts_covered() ==> {
        &&& held(post) + paid * REWARD_SCALE <= held(pre) + funded * REWARD_SCALE + REWARD_SCALE
        &&& held(post) + paid * REWARD_SCALE >= held(pre) + funded * REWARD_SCALE
            - pre.reward_pool.inc_token_supply - REWARD_SCALE
    }
}

/// Raising the accumulator raises what the stakers are owed by the raise
/// times their stakes.
pub proof fn lemma_claims_follow_accumulator(entries: Seq<Entry<UserInfo>>, acc: int, gain: int)
    ensures
        sum_of(entries, claim_at(acc + gain)) == sum_of(entries, claim_at(acc)) + gain * sum_of(
            entries,
            locked_amount(),
        ),
    decreases entries.len(),
{
    if entries.len() > 0 {
        lemma_claims_follow_accumulator(entries.drop_last(), acc, gain);
        let stakes = sum_of(entries.drop_last(), locked_amount());
        let locked = entries.last().value.locked as int;
        let debt = entries.last().value.debt as int;
        let scale = REWARD_SCALE as int;
        assert(locked * (acc + gain) - debt * scale == locked * acc - debt * scale + locked * gain)
            by (nonlinear_arith);
        assert(gain * (stakes + locked) == gain * stakes + locked * gain) by (nonlinear_arith);
    } else {
        assert(gain * 0 == 0) by (nonlinear_arith);
    }
}

/// What a settlement takes out of the pending rewards and does not credit
/// to the stakers is less than the supply, at the accumulator's scale; and
/// it credits no more than it takes.
pub proof fn lemma_settlement_loss(pool: RewardPool, block: u64, deadline: u64)
    ensures
        0 <= pool.vested(block, deadline) * REWARD_SCALE - pool.share_gain(block, deadline)
            * pool.inc_token_supply <= pool.inc_token_supply,
{
    let vested = pool.vested(block, deadline);
    let gain = pool.share_gain(block, deadline);
    let supply = pool.inc_token_supply as int;
    let scale = REWARD_SCALE as int;
    pool.lemma_vested_bounds(block, deadline);
    if pool.accrues(block, deadline) {
        let scaled = vested * scale;
        assert(0 <= scaled - (scaled / supply) * supply < supply) by (nonlinear_arith)
            requires
                0 < supply,
                0 <= scaled,
        ;
    } else {
        assert(0 * scale - 0 * supply == 0) by (nonlinear_arith);
    }
}

/// A claim that is rounded down to whole units loses less than one unit.
pub proof fn lemma_rounded_claim(locked: u128, acc: u128)
    ensures
        0 <= locked * acc - (locked * acc / (REWARD_SCALE as int)) * REWARD_SCALE < REWARD_SCALE,
{
    let product = locked * acc;
    let scale = REWARD_SCALE as int;
    assert(0 <= product) by (nonlinear_arith)
        requires
            0 <= locked,
            0 <= acc,
            product == locked * acc,
    ;
    assert(0 <= product - (product / scale) * scale < scale) by (nonlinear_arith)
        requires
            0 < scale,
            0 <= product,
    ;
}

/// The books of an operation that settles the pool at `block`, replaces one
/// staker's claim `old_claim` by `new_claim` while paying `paid`, and takes
/// in `funded`, balance up to rounding.
pub proof fn lemma_books_balance(
    pre: LpStaking,
    block: u64,
    old_claim: int,
    new_claim: int,
    paid: int,
    funded: int,
    post: LpStaking,
)
    requires
        pre.supply_matches(),
        pre.reward_pool.update_fits(block, pre.config.deadline),
        post.reward_pool.acc_reward_per_share == pre.reward_pool.updated(
            block,
            pre.config.deadline,
        ).acc_reward_per_share,
        post.reward_pool.pending_rewards == pre.reward_pool.updated(
            block,
            pre.config.deadline,
        ).pending_rewards + funded,
        post.users.total(claim_at(post.reward_pool.acc_reward_per_share as int)) == pre.users.total(
            claim_at(post.reward_pool.acc_reward_per_share as int),
        ) - old_claim + new_claim,
        paid * REWARD_SCALE <= old_claim < paid * REWARD_SCALE + REWARD_SCALE,
        0 <= new_claim < REWARD_SCALE,
    ensures
        held(post) + paid * REWARD_SCALE <= held(pre) + funded * REWARD_SCALE + REWARD_SCALE,
        held(post) + paid * REWARD_SCALE >= held(pre) + funded * REWARD_SCALE
            - pre.reward_pool.inc_token_supply - REWARD_SCALE,
{
    let deadline = pre.config.deadline;
    let scale = REWARD_SCALE as int;
    let acc = pre.reward_pool.acc_reward_per_share as int;
    let gain = pre.reward_pool.share_gain(block, deadline);
    let vested = pre.reward_pool.vested(block, deadline);
    let supply = pre.reward_pool.inc_token_supply as int;
    let pending = pre.reward_pool.pending_rewards as int;
    pre.reward_pool.lemma_vested_bounds(block, deadline);
    lemma_settlement_loss(pre.reward_pool, block, deadline);
    lemma_claims_follow_accumulator(pre.users.entries(), acc, gain);
    assert(post.reward_pool.acc_reward_per_share == acc + gain);
    assert(post.reward_pool.pending_rewards == pending - vested + funded);
    assert((pending - vested + funded) * scale == pending * scale - vested * scale + funded * scale)
        by (nonlinear_arith);
    assert(gain * supply == pre.reward_pool.share_gain(block, deadline)
        * pre.reward_pool.inc_token_supply);
}

} // verus!
