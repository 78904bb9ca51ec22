//! What holds of an allocator whatever it is asked to do.

use vstd::prelude::*;
use crate::error::{ContractError, ErrorKind};
use crate::master::contract::{
    handle_post,
    keeps_invariants,
    mint_to,
    notify,
    responds,
    retargeted,
    set_weights_post,
    update_allocation_post,
};
use crate::master::msg::{MasterHandleMsg, Response};
use crate::master::state::{
    Master,
    SpySettings,
    State,
    WeightInfo,
    spy_rewards,
    weight_of,
};
use crate::schedule::{minted_between, lemma_minted_nonnegative};
use crate::store::{Entry, sum_of};
use crate::types::Env;

verus! {

/// Whether `msg` is one of the messages that only the admin may send.
pub open spec fn is_admin_only(msg: MasterHandleMsg) -> bool {
    msg is SetWeights || msg is SetSchedule || msg is SetGovToken || msg is ChangeAdmin
}

/// A message reserved for the admin, sent by anyone else, fails as
/// unauthorized and changes nothing.
pub proof fn lemma_admin_gate(
    pre: Master,
    env: Env,
    msg: MasterHandleMsg,
    post: Master,
    res: Result<Response, ContractError>,
)
    requires
        handle_post(pre, env, msg, post, res),
        is_admin_only(msg),
        env.sender@ != pre.state.admin@,
    ensures
        post == pre,
        res == Err::<Response, ContractError>(ContractError::NotAdmin { sender: env.sender }),
        res->Err_0.spec_kind() == ErrorKind::Unauthorized,
{
}

/// A history of an allocator: the states it passed through, each reached
/// from the one before by an operation that kept what every operation
/// keeps.
pub open spec fn is_history(states: Seq<Master>) -> bool {
    &&& states.len() > 0
    &&& forall|i: int|
        0 <= i < states.len() - 1 ==> keeps_invariants(#[trigger] states[i], states[i + 1])
}

/// Through the whole history of an allocator that started out with its
/// total weight the sum of its sinks' weights and its schedule in order,
/// both hold.
pub proof fn lemma_invariants_hold_throughout(states: Seq<Master>, at: int)
    requires
        is_history(states),
        states[0].weights_match(),
        states[0].schedule_ordered(),
        0 <= at < states.len(),
    ensures
        states[at].weights_match(),
        states[at].schedule_ordered(),
    decreases at,
{
    if at > 0 {
        assert(keeps_invariants(states[at - 1], states[at]));
        lemma_invariants_hold_throughout(states, at - 1);
    }
}

/// After a batch of assignments, a sink holds the weight that the last
/// assignment to it names, and is paid up to the block of the batch.
pub proof fn lemma_retarget_sets_last_assignment(
    state: State,
    block: u64,
    spies: Map<Seq<char>, SpySettings>,
    weights: Seq<WeightInfo>,
    i: int,
)
    requires
        0 <= i < weights.len(),
        forall|j: int| i < j < weights.len() ==> weights[j].address@ != weights[i].address@,
    ensures
        retargeted(state, block, spies, weights).spies.contains_key(weights[i].address@),
        retargeted(state, block, spies, weights).spies[weights[i].address@] == (SpySettings {
            weight: weights[i].weight,
            last_update_block: block,
        }),
    decreases weights.len(),
{
    if i < weights.len() - 1 {
        let rest = weights.drop_last();
        assert forall|j: int| i < j < rest.len() implies rest[j].address@ != rest[i].address@ by {
            assert(rest[j] == weights[j]);
        }
        lemma_retarget_sets_last_assignment(state, block, spies, rest, i);
        assert(weights.last().address@ != weights[i].address@);
    }
}

/// A sink whose weight was assigned at one block and which asks for its
/// allocation at a later block is minted exactly the schedule's mint between
/// the two blocks, times the weight assigned, divided by the total weight
/// and rounded down; and it is told so.
pub proof fn lemma_allocation_after_retarget(
    before: Master,
    assigned_at: Env,
    weights: Seq<WeightInfo>,
    between: Master,
    assigned: Result<Response, ContractError>,
    i: int,
    asked_at: Env,
    spy_hash: String,
    hook: Option<Vec<u8>>,
    after: Master,
    paid: Result<Response, ContractError>,
)
    requires
        set_weights_post(before, assigned_at, weights, between, assigned),
        assigned is Ok,
        0 <= i < weights.len(),
        forall|j: int| i < j < weights.len() ==> weights[j].address@ != weights[i].address@,
        weights[i].weight > 0,
        assigned_at.block_height < asked_at.block_height,
        update_allocation_post(
            between,
            asked_at,
            weights[i].address,
            spy_hash,
            hook,
            after,
            paid,
        ),
        paid is Ok,
    ensures
        between.state.total_weight > 0,
        responds(
            paid,
            seq![
                mint_to(
                    between.state,
                    weights[i].address,
                    minted_between(
                        between.state.minting_schedule@,
                        assigned_at.block_height as int,
                        asked_at.block_height as int,
                    ) * weights[i].weight / (between.state.total_weight as int),
                ),
                notify(
                    weights[i].address,
                    spy_hash,
                    minted_between(
                        between.state.minting_schedule@,
                        assigned_at.block_height as int,
                        asked_at.block_height as int,
                    ) * weights[i].weight / (between.state.total_weight as int),
                    hook,
                ),
            ],
            seq![("update_allocation"@, weights[i].address@)],
        ),
{
    lemma_retarget_sets_last_assignment(
        before.state,
        assigned_at.block_height,
        before.spies@,
        weights,
        i,
    );
    let amount = minted_between(
        between.state.minting_schedule@,
        assigned_at.block_height as int,
        asked_at.block_height as int,
    ) * weights[i].weight / (between.state.total_weight as int);
    let spy = SpySettings { weight: weights[i].weight, last_update_block: assigned_at.block_height };
    assert(between.spies@[weights[i].address@] == spy);
    assert(amount == spy_rewards(
        between.state.minting_schedule@,
        spy,
        between.state.total_weight,
        asked_at.block_height,
    ));
    let mint = mint_to(between.state, weights[i].address, amount);
    let told = notify(weights[i].address, spy_hash, amount, hook);
    assert(seq![mint].push(told) =~= seq![mint, told]);
}

/// The measure of a sink's share of a mint: the mint times the sink's
/// weight, divided by the total weight and rounded down.
pub open spec fn share_of(minted: int, total_weight: int) -> spec_fn(SpySettings) -> int {
    |spy: SpySettings| minted * spy.weight / total_weight
}

/// The shares of the sinks, each rounded down, come to no more than the
/// weights' part of the mint.
proof fn lemma_shares_bounded(entries: Seq<Entry<SpySettings>>, minted: int, total_weight: int)
    requires
        0 <= minted,
        0 < total_weight,
    ensures
        sum_of(entries, share_of(minted, total_weight)) * total_weight <= minted * sum_of(
            entries,
            weight_of(),
        ),
    decreases entries.len(),
{
    if entries.len() > 0 {
        lemma_shares_bounded(entries.drop_last(), minted, total_weight);
        let shares = sum_of(entries.drop_last(), share_of(minted, total_weight));
        let weights = sum_of(entries.drop_last(), weight_of());
        let weight = entries.last().value.weight as int;
        let share = minted * weight / total_weight;
        assert(share * total_weight <= minted * weight) by (nonlinear_arith)
            requires
                share == minted * weight / total_weight,
                0 < total_weight,
                0 <= minted * weight,
        ;
        assert(0 <= minted * weight) by (nonlinear_arith)
            requires
                0 <= minted,
                0 <= weight,
        ;
        assert((shares + share) * total_weight == shares * total_weight + share * total_weight)
            by (nonlinear_arith);
        assert(minted * (weights + weight) == minted * weights + minted * weight)
            by (nonlinear_arith);
    } else {
        assert(0 * total_weight <= minted * 0) by (nonlinear_arith);
    }
}

/// What all sinks together are minted for a stretch of blocks is no more
/// than what the schedule mints over the stretch. What rounding leaves over
/// stays unminted.
pub proof fn lemma_shares_within_mint(master: Master, from_block: u64, to_block: u64)
    requires
        master.weights_match(),
        master.state.total_weight > 0,
    ensures
        master.spies.total(
            share_of(
                minted_between(master.state.minting_schedule@, from_block as int, to_block as int),
                master.state.total_weight as int,
            ),
        ) <= minted_between(master.state.minting_schedule@, from_block as int, to_block as int),
{
    let minted = minted_between(master.state.minting_schedule@, from_block as int, to_block as int);
    let total = master.state.total_weight as int;
    lemma_minted_nonnegative(master.state.minting_schedule@, from_block as int, to_block as int);
    lemma_shares_bounded(master.spies.entries(), minted, total);
    let shares = master.spies.total(share_of(minted, total));
    assert(shares <= minted) by (nonlinear_arith)
        requires
            shares * total <= minted * total,
            0 < total,
    ;
}

} // verus!
