//! What holds of a staking pool whatever it is asked to do.

use vstd::prelude::*;
use crate::constants::REWARD_SCALE;
use crate::error::{ContractError, ErrorKind};
use crate::lp_staking::conservation::{conserves, held};
use crate::lp_staking::contract::{
    authenticated_answer,
    keeps_invariants,
    handle_post,
    key_opens,
    refusal,
};
use crate::lp_staking::msg::{LPStakingHandleMsg, QueryAnswer, QueryMsg, Response};
use crate::lp_staking::state::{LpStaking, RewardPool, UserInfo};
use crate::store::{Entry, sum_of};
use crate::types::{BalanceQuery, Env};

verus! {

/// Whether `msg` is one of the messages that only the admin may send.
pub open spec fn is_admin_only(msg: LPStakingHandleMsg) -> bool {
    msg is ClaimRewardPool || msg is StopContract || msg is ResumeContract || msg is ChangeAdmin
        || msg is SetDeadline
}

/// Whether a pool accepts `msg` at all in the state it is in: a stopped pool
/// accepts an emergency redemption and the order to resume, a running pool
/// everything else.
pub open spec fn is_on_offer(pool: LpStaking, msg: LPStakingHandleMsg) -> bool {
    if pool.config.is_stopped {
        msg is EmergencyRedeem || msg is ResumeContract
    } else {
        !(msg is EmergencyRedeem || msg is ResumeContract)
    }
}

/// The measure of what a settlement credits to a staker before rounding:
/// the staker's stake times the gain of the accumulator.
pub open spec fn credited(gain: int) -> spec_fn(UserInfo) -> int {
    |user: UserInfo| user.locked * gain
}

/// A settlement that finds the pool settled up to the deadline or beyond
/// changes nothing: past the deadline nothing vests.
pub proof fn lemma_no_accrual_past_deadline(pool: RewardPool, block: u64, deadline: u64)
    requires
        pool.last_reward_block >= deadline,
    ensures
        pool.updated(block, deadline) == pool,
{
}

/// Once a pool has been settled at or after the deadline, every further
/// settlement leaves the accumulator and the pending rewards as they are.
pub proof fn lemma_settled_once_past_deadline(
    pool: RewardPool,
    first: u64,
    second: u64,
    deadline: u64,
)
    requires
        first >= deadline,
    ensures
        pool.updated(first, deadline).updated(second, deadline).acc_reward_per_share
            == pool.updated(first, deadline).acc_reward_per_share,
        pool.updated(first, deadline).updated(second, deadline).pending_rewards == pool.updated(
            first,
            deadline,
        ).pending_rewards,
{
}

/// A settlement never lowers the accumulator and never moves the settled
/// block back or beyond the deadline; what leaves the pending rewards is
/// exactly what vested.
pub proof fn lemma_settlement_is_monotone(pool: RewardPool, block: u64, deadline: u64)
    requires
        pool.update_fits(block, deadline),
    ensures
        pool.updated(block, deadline).acc_reward_per_share >= pool.acc_reward_per_share,
        pool.updated(block, deadline).last_reward_block >= pool.last_reward_block,
        pool.last_reward_block <= deadline ==> pool.updated(block, deadline).last_reward_block
            <= deadline,
        pool.updated(block, deadline).pending_rewards + pool.vested(block, deadline)
            == pool.pending_rewards,
{
    pool.lemma_vested_bounds(block, deadline);
}

/// The sum of a measure scaled by a factor is the factor times the sum of
/// the stakes.
proof fn lemma_credited_is_linear(entries: Seq<Entry<UserInfo>>, gain: int)
    ensures
        sum_of(entries, credited(gain)) == gain * sum_of(
            entries,
            crate::lp_staking::state::locked_amount(),
        ),
    decreases entries.len(),
{
    if entries.len() > 0 {
        lemma_credited_is_linear(entries.drop_last(), gain);
        let rest = sum_of(entries.drop_last(), crate::lp_staking::state::locked_amount());
        let locked = entries.last().value.locked as int;
        assert(gain * (rest + locked) == gain * rest + locked * gain) by (nonlinear_arith);
    } else {
        assert(gain * 0 == 0) by (nonlinear_arith);
    }
}

/// A settlement credits to all stakers together no more than vested: the
/// stakes times the gain of the accumulator add up to at most the vested
/// rewards at the accumulator's scale. What each staker can claim is this
/// credit divided by the scale and rounded down.
pub proof fn lemma_settlement_credits_no_more_than_vested(pool: LpStaking, block: u64)
    requires
        pool.supply_matches(),
    ensures
        pool.users.total(credited(pool.reward_pool.share_gain(block, pool.config.deadline)))
            <= pool.reward_pool.vested(block, pool.config.deadline) * REWARD_SCALE,
        pool.reward_pool.vested(block, pool.config.deadline) <= pool.reward_pool.pending_rewards,
{
    let gain = pool.reward_pool.share_gain(block, pool.config.deadline);
    pool.reward_pool.lemma_vested_bounds(block, pool.config.deadline);
    lemma_credited_is_linear(pool.users.entries(), gain);
    assert(gain * pool.reward_pool.inc_token_supply == pool.reward_pool.inc_token_supply * gain)
        by (nonlinear_arith);
    if !pool.reward_pool.accrues(block, pool.config.deadline) {
        assert(gain * pool.reward_pool.inc_token_supply == 0) by (nonlinear_arith)
            requires
                gain == 0,
        ;
    }
}

/// Two operations in a row keep the books balanced up to the rounding of
/// both: what the pool holds at the end, and what it paid on the way, is
/// what it held at the start and what it took in on the way, give or take
/// one unit and one supply, at the accumulator's scale, per operation.
pub proof fn lemma_conservation_composes(
    first: LpStaking,
    second: LpStaking,
    third: LpStaking,
    paid_first: int,
    funded_first: int,
    paid_second: int,
    funded_second: int,
)
    requires
        first.supply_matches(),
        first.debts_covered(),
        second.supply_matches(),
        second.debts_covered(),
        conserves(first, second, paid_first, funded_first),
        conserves(second, third, paid_second, funded_second),
    ensures
        held(third) + (paid_first + paid_second) * REWARD_SCALE <= held(first) + (funded_first
            + funded_second) * REWARD_SCALE + 2 * REWARD_SCALE,
        held(third) + (paid_first + paid_second) * REWARD_SCALE >= held(first) + (funded_first
            + funded_second) * REWARD_SCALE - first.reward_pool.inc_token_supply
            - second.reward_pool.inc_token_supply - 2 * REWARD_SCALE,
{
    let scale = REWARD_SCALE as int;
    assert((paid_first + paid_second) * scale == paid_first * scale + paid_second * scale)
        by (nonlinear_arith);
    assert((funded_first + funded_second) * scale == funded_first * scale + funded_second * scale)
        by (nonlinear_arith);
}

/// A history of a pool: the states it passed through, each reached from
/// the one before by an operation that kept what every operation keeps.
pub open spec fn is_history(states: Seq<LpStaking>) -> bool {
    &&& states.len() > 0
    &&& forall|i: int|
        0 <= i < states.len() - 1 ==> keeps_invariants(#[trigger] states[i], states[i + 1])
}

/// Through the whole history of a pool that started out with its supply the
/// sum of the stakes, its debts covered and within its epoch, all three
/// hold; and from any state to any later one, neither the accumulator nor
/// the settled block goes back.
pub proof fn lemma_invariants_hold_throughout(states: Seq<LpStaking>, earlier: int, later: int)
    requires
        is_history(states),
        states[0].supply_matches(),
        states[0].debts_covered(),
        states[0].within_epoch(),
        0 <= earlier <= later < states.len(),
    ensures
        states[later].supply_matches(),
        states[later].debts_covered(),
        states[later].within_epoch(),
        states[later].reward_pool.acc_reward_per_share
            >= states[earlier].reward_pool.acc_reward_per_share,
        states[later].reward_pool.last_reward_block >= states[earlier].reward_pool.last_reward_block,
    decreases later,
{
    if later > 0 {
        assert(keeps_invariants(states[later - 1], states[later]));
        if earlier < later {
            lemma_invariants_hold_throughout(states, earlier, later - 1);
        } else {
            lemma_invariants_hold_throughout(states, 0, later - 1);
        }
    }
}

/// A message reserved for the admin, sent by anyone else to a pool that has
/// it on offer, fails as unauthorized and changes nothing.
pub proof fn lemma_admin_gate(
    pre: LpStaking,
    env: Env,
    msg: LPStakingHandleMsg,
    reward_balance: BalanceQuery,
    post: LpStaking,
    res: Result<Response, ContractError>,
)
    requires
        handle_post(pre, env, msg, reward_balance, post, res),
        is_admin_only(msg),
        is_on_offer(pre, msg),
        env.sender@ != pre.config.admin@,
    ensures
        post == pre,
        res == Err::<Response, ContractError>(ContractError::NotAdmin { sender: env.sender }),
        res->Err_0.spec_kind() == ErrorKind::Unauthorized,
{
}

/// A stopped pool refuses every message but an emergency redemption and the
/// order to resume, and is not changed by what it refuses.
pub proof fn lemma_stop_safety(
    pre: LpStaking,
    env: Env,
    msg: LPStakingHandleMsg,
    reward_balance: BalanceQuery,
    post: LpStaking,
    res: Result<Response, ContractError>,
)
    requires
        handle_post(pre, env, msg, reward_balance, post, res),
        pre.config.is_stopped,
        !(msg is EmergencyRedeem || msg is ResumeContract),
    ensures
        post == pre,
        res == Err::<Response, ContractError>(ContractError::ContractStopped),
{
}

/// A running pool takes no emergency redemption.
pub proof fn lemma_emergency_only_when_stopped(
    pre: LpStaking,
    env: Env,
    reward_balance: BalanceQuery,
    post: LpStaking,
    res: Result<Response, ContractError>,
)
    requires
        handle_post(pre, env, LPStakingHandleMsg::EmergencyRedeem, reward_balance, post, res),
        !pre.config.is_stopped,
    ensures
        post == pre,
        res is Err,
{
}

/// An authenticated question whose key does not open the address gets the
/// same refusal whether the address has no key on record or another one.
pub proof fn lemma_refusal_hides_the_reason(
    pool: LpStaking,
    msg: QueryMsg,
    res: Result<QueryAnswer, ContractError>,
)
    requires
        msg.is_authenticated(),
        authenticated_answer(pool, msg, res),
        !key_opens(pool, msg.subject()@, msg.presented_key()@),
    ensures
        refusal(res),
{
}

} // verus!
