//! The operations of an allocator.
//!
//! Every operation either succeeds and changes the allocator as its contract
//! says, or fails and leaves it exactly as it was.

use vstd::prelude::*;
use crate::error::{ContractError, enforce_admin};
use crate::master::msg::{HandleAnswer, InitMsg, MasterHandleMsg, QueryAnswer, QueryMsg, Response};
use crate::master::state::{
    Master,
    SpySettings,
    State,
    WeightInfo,
    get_spy_rewards,
    is_settled,
    rewards_fit,
    spy_or_default,
    spy_rewards,
    weight_of,
};
use crate::schedule::{
    Schedule,
    ScheduleUnit,
    has_unique_end_blocks,
    is_sorted,
    is_strictly_sorted,
    same_segments,
    sort_schedule,
};
use crate::store::Store;
use crate::types::{
    Env,
    HandleResponse,
    InitResponse,
    LogAttribute,
    Message,
    SecretContract,
    log,
    log_entries,
};

verus! {

/// The governance token as a contract reference.
pub open spec fn gov_token(state: State) -> SecretContract {
    SecretContract { address: state.gov_token_addr, contract_hash: state.gov_token_hash }
}

/// The message that mints `amount` of the governance token to `recipient`.
pub open spec fn mint_to(state: State, recipient: String, amount: int) -> Message {
    Message::Mint { token: gov_token(state), recipient, amount: amount as u128, block_size: 1 }
}

/// The callback that tells the sink at `address` that `amount` was minted
/// to it.
pub open spec fn notify(address: String, hash: String, amount: int, hook: Option<Vec<u8>>) -> Message {
    Message::NotifyAllocation {
        contract: SecretContract { address, contract_hash: hash },
        amount: amount as u128,
        hook,
    }
}

/// A failure with `error` that left the allocator as it was.
pub open spec fn fails(
    pre: Master,
    post: Master,
    res: Result<Response, ContractError>,
    error: ContractError,
) -> bool {
    post == pre && res == Err::<Response, ContractError>(error)
}

/// A successful response with the given messages and log.
pub open spec fn responds(
    res: Result<Response, ContractError>,
    messages: Seq<Message>,
    log: Seq<(Seq<char>, Seq<char>)>,
) -> bool {
    &&& res is Ok
    &&& res->Ok_0.messages@ == messages
    &&& log_entries(res->Ok_0.log@) == log
    &&& res->Ok_0.data == Some(HandleAnswer::Success)
}

/// What a batch of weight assignments comes to.
pub struct Retarget {
    /// The sinks after the batch.
    pub spies: Map<Seq<char>, SpySettings>,
    /// The sum of the weights assigned.
    pub added: int,
    /// The sum of the weights replaced.
    pub removed: int,
    /// The payments and callbacks to the sinks that were settled.
    pub messages: Seq<Message>,
    /// One log entry per assignment.
    pub log: Seq<(Seq<char>, Seq<char>)>,
    /// Whether every payment could be computed.
    pub fits: bool,
}

/// The outcome of assigning `weights`, one after the other, at block
/// `block`. Each sink is first paid what it is due under the weights that
/// held so far, then given its new weight and marked as paid up to `block`.
/// A sink without weight, or one already paid up to `block`, is paid
/// nothing and gets no callback.
pub open spec fn retargeted(
    state: State,
    block: u64,
    spies: Map<Seq<char>, SpySettings>,
    weights: Seq<WeightInfo>,
) -> Retarget
    decreases weights.len(),
{
    if weights.len() == 0 {
        Retarget {
            spies,
            added: 0,
            removed: 0,
            messages: Seq::empty(),
            log: Seq::empty(),
            fits: true,
        }
    } else {
        let before = retargeted(state, block, spies, weights.drop_last());
        let entry = weights.last();
        let spy = spy_or_default(before.spies, entry.address@, block);
        let rewards = spy_rewards(state.minting_schedule@, spy, state.total_weight, block);
        Retarget {
            spies: before.spies.insert(
                entry.address@,
                SpySettings { weight: entry.weight, last_update_block: block },
            ),
            added: before.added + entry.weight,
            removed: before.removed + spy.weight,
            messages: if is_settled(spy, block) {
                before.messages.push(mint_to(state, entry.address, rewards)).push(
                    notify(entry.address, entry.hash, rewards, None),
                )
            } else {
                before.messages
            },
            log: before.log.push(("weight_update"@, entry.address@)),
            fits: before.fits && (is_settled(spy, block) ==> rewards_fit(
                state.minting_schedule@,
                spy,
                state.total_weight,
                block,
            )),
        }
    }
}

/// A batch whose payments can all be computed begins with batches whose
/// payments can all be computed.
proof fn lemma_fits_prefix(
    state: State,
    block: u64,
    spies: Map<Seq<char>, SpySettings>,
    weights: Seq<WeightInfo>,
    n: int,
)
    requires
        0 <= n <= weights.len(),
        retargeted(state, block, spies, weights).fits,
    ensures
        retargeted(state, block, spies, weights.take(n)).fits,
    decreases weights.len(),
{
    if n == weights.len() {
        assert(weights.take(n) =~= weights);
    } else {
        lemma_fits_prefix(state, block, spies, weights.drop_last(), n);
        assert(weights.drop_last().take(n) =~= weights.take(n));
    }
}

/// What `set_weights` does: the admin assigns the weights of a batch and the
/// total weight follows.
pub open spec fn set_weights_post(
    pre: Master,
    env: Env,
    weights: Seq<WeightInfo>,
    post: Master,
    res: Result<Response, ContractError>,
) -> bool {
    let outcome = retargeted(pre.state, env.block_height, pre.spies@, weights);
    let total = pre.state.total_weight + outcome.added - outcome.removed;
    if env.sender@ != pre.state.admin@ {
        fails(pre, post, res, ContractError::NotAdmin { sender: env.sender })
    } else if !(outcome.fits && 0 <= total <= u64::MAX) {
        fails(pre, post, res, ContractError::Arithmetic)
    } else {
        &&& post.state == State { total_weight: total as u64, ..pre.state }
        &&& post.spies@ == outcome.spies
        &&& responds(res, outcome.messages, outcome.log)
    }
}

/// What `update_allocation` does: the sink is paid what it is due and
/// called back. A sink without weight, or one already paid up to the
/// present block, is paid nothing but still called back. A sink that the
/// allocator has not seen yet is put on record.
pub open spec fn update_allocation_post(
    pre: Master,
    env: Env,
    spy_addr: String,
    spy_hash: String,
    hook: Option<Vec<u8>>,
    post: Master,
    res: Result<Response, ContractError>,
) -> bool {
    let block = env.block_height;
    let spy = spy_or_default(pre.spies@, spy_addr@, block);
    let settle = is_settled(spy, block);
    let rewards = if settle {
        spy_rewards(pre.state.minting_schedule@, spy, pre.state.total_weight, block)
    } else {
        0
    };
    if settle && !rewards_fit(pre.state.minting_schedule@, spy, pre.state.total_weight, block) {
        fails(pre, post, res, ContractError::Arithmetic)
    } else {
        &&& post.state == pre.state
        &&& post.spies@ == pre.spies@.insert(
            spy_addr@,
            SpySettings {
                weight: spy.weight,
                last_update_block: if spy.last_update_block < block {
                    block
                } else {
                    spy.last_update_block
                },
            },
        )
        &&& responds(
            res,
            (if settle {
                seq![mint_to(pre.state, spy_addr, rewards)]
            } else {
                Seq::<Message>::empty()
            }).push(notify(spy_addr, spy_hash, rewards, hook)),
            seq![("update_allocation"@, spy_addr@)],
        )
    }
}

/// What `set_schedule` does: the admin replaces the schedule by `schedule`,
/// sorted. A schedule with two segments that end at the same block is
/// refused.
pub open spec fn set_schedule_post(
    pre: Master,
    env: Env,
    schedule: Seq<ScheduleUnit>,
    post: Master,
    res: Result<Response, ContractError>,
) -> bool {
    if env.sender@ != pre.state.admin@ {
        fails(pre, post, res, ContractError::NotAdmin { sender: env.sender })
    } else if exists|i: int, j: int|
        0 <= i < j < schedule.len() && schedule[i].end_block == schedule[j].end_block {
        fails(pre, post, res, ContractError::DuplicateEndBlock)
    } else {
        &&& post.spies == pre.spies
        &&& post.state.admin == pre.state.admin
        &&& post.state.gov_token_addr == pre.state.gov_token_addr
        &&& post.state.gov_token_hash == pre.state.gov_token_hash
        &&& post.state.total_weight == pre.state.total_weight
        &&& is_strictly_sorted(post.state.minting_schedule@)
        &&& same_segments(post.state.minting_schedule@, schedule)
        &&& post.state.minting_schedule@.len() == schedule.len()
        &&& responds(res, Seq::empty(), Seq::empty())
    }
}

/// What `set_gov_token` does: the admin names another token to mint.
pub open spec fn set_gov_token_post(
    pre: Master,
    env: Env,
    addr: String,
    hash: String,
    post: Master,
    res: Result<Response, ContractError>,
) -> bool {
    if env.sender@ != pre.state.admin@ {
        fails(pre, post, res, ContractError::NotAdmin { sender: env.sender })
    } else {
        &&& post.spies == pre.spies
        &&& post.state == State { gov_token_addr: addr, gov_token_hash: hash, ..pre.state }
        &&& responds(res, Seq::empty(), seq![("set_gov_token"@, addr@)])
    }
}

/// What `change_admin` does: the admin hands the allocator over to `addr`.
pub open spec fn change_admin_post(
    pre: Master,
    env: Env,
    addr: String,
    post: Master,
    res: Result<Response, ContractError>,
) -> bool {
    if env.sender@ != pre.state.admin@ {
        fails(pre, post, res, ContractError::NotAdmin { sender: env.sender })
    } else {
        &&& post.spies == pre.spies
        &&& post.state == State { admin: addr, ..pre.state }
        &&& responds(res, Seq::empty(), Seq::empty())
    }
}

/// What `handle` does: what the operation that the message names does.
pub open spec fn handle_post(
    pre: Master,
    env: Env,
    msg: MasterHandleMsg,
    post: Master,
    res: Result<Response, ContractError>,
) -> bool {
    match msg {
        MasterHandleMsg::UpdateAllocation { spy_addr, spy_hash, hook } => update_allocation_post(
            pre,
            env,
            spy_addr,
            spy_hash,
            hook,
            post,
            res,
        ),
        MasterHandleMsg::SetWeights { weights } => set_weights_post(pre, env, weights@, post, res),
        MasterHandleMsg::SetSchedule { schedule } => set_schedule_post(
            pre,
            env,
            schedule@,
            post,
            res,
        ),
        MasterHandleMsg::SetGovToken { addr, hash } => set_gov_token_post(
            pre,
            env,
            addr,
            hash,
            post,
            res,
        ),
        MasterHandleMsg::ChangeAdmin { addr } => change_admin_post(pre, env, addr, post, res),
    }
}

/// What every operation keeps: the total weight stays the sum of the sinks'
/// weights, and the schedule stays sorted without two segments ending at
/// one block.
pub open spec fn keeps_invariants(pre: Master, post: Master) -> bool {
    &&& pre.weights_match() ==> post.weights_match()
    &&& pre.schedule_ordered() ==> post.schedule_ordered()
}

fn success(messages: Vec<Message>, log: Vec<LogAttribute>) -> (res: Result<Response, ContractError>)
    ensures
        res is Ok,
        res->Ok_0.messages == messages,
        res->Ok_0.log == log,
        res->Ok_0.data == Some(HandleAnswer::Success),
{
    Ok(HandleResponse { messages, log, data: Some(HandleAnswer::Success) })
}

fn gov_token_of(state: &State) -> (token: SecretContract)
    ensures
        token == gov_token(*state),
{
    SecretContract {
        address: state.gov_token_addr.clone(),
        contract_hash: state.gov_token_hash.clone(),
    }
}

/// A sorted schedule has two segments ending at one block exactly if it is
/// not strictly sorted, and so has every schedule with the same segments.
proof fn lemma_duplicates_survive_sorting(sorted: Seq<ScheduleUnit>, given: Seq<ScheduleUnit>)
    requires
        is_sorted(sorted),
        same_segments(sorted, given),
    ensures
        is_strictly_sorted(sorted) <==> !(exists|i: int, j: int|
            0 <= i < j < given.len() && given[i].end_block == given[j].end_block),
{
    if exists|i: int, j: int|
        0 <= i < j < given.len() && given[i].end_block == given[j].end_block {
        let (i, j) = choose|i: int, j: int|
            0 <= i < j < given.len() && given[i].end_block == given[j].end_block;
        let test = crate::schedule::ends_at(given[i].end_block);
        lemma_two_matches(given, test, i, j);
        assert(sorted.filter(test) == given.filter(test));
        let (a, b) = lemma_matches_found(sorted, test);
        assert(sorted[a].end_block == sorted[b].end_block);
    }
    if !is_strictly_sorted(sorted) {
        let (a, b) = choose|a: int, b: int|
            0 <= a < b < sorted.len() && !(sorted[a].end_block < sorted[b].end_block);
        let test = crate::schedule::ends_at(sorted[a].end_block);
        lemma_two_matches(sorted, test, a, b);
        assert(sorted.filter(test) == given.filter(test));
        let (i, j) = lemma_matches_found(given, test);
        assert(given[i].end_block == given[j].end_block);
    }
}

/// A sequence with two elements that pass a test has at least two elements
/// left after filtering.
proof fn lemma_two_matches(s: Seq<ScheduleUnit>, test: spec_fn(ScheduleUnit) -> bool, i: int, j: int)
    requires
        0 <= i < j < s.len(),
        test(s[i]),
        test(s[j]),
    ensures
        s.filter(test).len() >= 2,
    decreases s.len(),
{
    reveal(Seq::filter);
    if j == s.len() - 1 {
        lemma_one_match(s.drop_last(), test, i);
    } else {
        lemma_two_matches(s.drop_last(), test, i, j);
    }
}

/// A sequence with an element that passes a test has an element left after
/// filtering.
proof fn lemma_one_match(s: Seq<ScheduleUnit>, test: spec_fn(ScheduleUnit) -> bool, i: int)
    requires
        0 <= i < s.len(),
        test(s[i]),
    ensures
        s.filter(test).len() >= 1,
    decreases s.len(),
{
    reveal(Seq::filter);
    if i < s.len() - 1 {
        lemma_one_match(s.drop_last(), test, i);
    }
}

/// Where filtering leaves two elements, two elements of the sequence pass
/// the test.
proof fn lemma_matches_found(s: Seq<ScheduleUnit>, test: spec_fn(ScheduleUnit) -> bool) -> (found: (
    int,
    int,
))
    requires
        s.filter(test).len() >= 2,
    ensures
        0 <= found.0 < found.1 < s.len(),
        test(s[found.0]),
        test(s[found.1]),
    decreases s.len(),
{
    reveal(Seq::filter);
    if s.len() == 0 {
        (0, 0)
    } else if test(s.last()) {
        if s.drop_last().filter(test).len() >= 2 {
            lemma_matches_found(s.drop_last(), test)
        } else {
            let first = lemma_match_found(s.drop_last(), test);
            (first, s.len() - 1)
        }
    } else {
        lemma_matches_found(s.drop_last(), test)
    }
}

/// Where filtering leaves an element, an element of the sequence passes the
/// test.
proof fn lemma_match_found(s: Seq<ScheduleUnit>, test: spec_fn(ScheduleUnit) -> bool) -> (found: int)
    requires
        s.filter(test).len() >= 1,
    ensures
        0 <= found < s.len(),
        test(s[found]),
    decreases s.len(),
{
    reveal(Seq::filter);
    if s.len() == 0 {
        0
    } else if test(s.last()) {
        s.len() - 1
    } else {
        lemma_match_found(s.drop_last(), test)
    }
}

/// Creates an allocator: the sender becomes its admin, no sink has weight,
/// and the schedule is the one given, sorted. A schedule with two segments
/// that end at the same block is refused.
pub fn init(env: &Env, msg: InitMsg) -> (res: Result<(Master, InitResponse), ContractError>)
    ensures
        (exists|i: int, j: int|
            0 <= i < j < msg.minting_schedule@.len() && msg.minting_schedule@[i].end_block
                == msg.minting_schedule@[j].end_block) ==> res == Err::<
            (Master, InitResponse),
            ContractError,
        >(ContractError::DuplicateEndBlock),
        !(exists|i: int, j: int|
            0 <= i < j < msg.minting_schedule@.len() && msg.minting_schedule@[i].end_block
                == msg.minting_schedule@[j].end_block) ==> {
            &&& res is Ok
            &&& res->Ok_0.0.weights_match()
            &&& res->Ok_0.0.schedule_ordered()
            &&& res->Ok_0.0.state.admin == env.sender
            &&& res->Ok_0.0.state.gov_token_addr == msg.gov_token_addr
            &&& res->Ok_0.0.state.gov_token_hash == msg.gov_token_hash
            &&& res->Ok_0.0.state.total_weight == 0
            &&& same_segments(res->Ok_0.0.state.minting_schedule@, msg.minting_schedule@)
            &&& res->Ok_0.0.state.minting_schedule@.len() == msg.minting_schedule@.len()
            &&& res->Ok_0.0.spies@ == Map::<Seq<char>, SpySettings>::empty()
            &&& res->Ok_0.1.messages@ == Seq::<Message>::empty()
            &&& res->Ok_0.1.log@ == Seq::<LogAttribute>::empty()
        },
{
    let ghost given = msg.minting_schedule@;
    let mut schedule = msg.minting_schedule;
    sort_schedule(&mut schedule);
    proof {
        lemma_duplicates_survive_sorting(schedule@, given);
    }
    if !has_unique_end_blocks(&schedule) {
        return Err(ContractError::DuplicateEndBlock);
    }
    let master = Master {
        state: State {
            admin: env.sender.clone(),
            gov_token_addr: msg.gov_token_addr,
            gov_token_hash: msg.gov_token_hash,
            total_weight: 0,
            minting_schedule: schedule,
        },
        spies: Store::new(),
    };
    Ok((master, InitResponse { messages: Vec::new(), log: Vec::new() }))
}

/// Replaces the schedule.
pub fn set_schedule(contract: &mut Master, env: &Env, schedule: Schedule) -> (res: Result<
    Response,
    ContractError,
>)
    ensures
        set_schedule_post(*old(contract), *env, schedule@, *final(contract), res),
        keeps_invariants(*old(contract), *final(contract)),
{
    match enforce_admin(&contract.state.admin, &env.sender) {
        Err(error) => {
            return Err(error);
        },
        Ok(()) => {},
    }
    let ghost given = schedule@;
    let mut sorted = schedule;
    sort_schedule(&mut sorted);
    proof {
        lemma_duplicates_survive_sorting(sorted@, given);
    }
    if !has_unique_end_blocks(&sorted) {
        return Err(ContractError::DuplicateEndBlock);
    }
    contract.state.minting_schedule = sorted;
    let res = success(Vec::new(), Vec::new());
    assert(log_entries(res->Ok_0.log@) =~= Seq::empty());
    res
}

/// Names another token to mint.
pub fn set_gov_token(contract: &mut Master, env: &Env, gov_addr: String, gov_hash: String) -> (res: Result<
    Response,
    ContractError,
>)
    ensures
        set_gov_token_post(*old(contract), *env, gov_addr, gov_hash, *final(contract), res),
        keeps_invariants(*old(contract), *final(contract)),
{
    match enforce_admin(&contract.state.admin, &env.sender) {
        Err(error) => {
            return Err(error);
        },
        Ok(()) => {},
    }
    let mut logs: Vec<LogAttribute> = Vec::new();
    logs.push(log("set_gov_token", &gov_addr));
    contract.state.gov_token_addr = gov_addr;
    contract.state.gov_token_hash = gov_hash;
    let res = success(Vec::new(), logs);
    assert(log_entries(res->Ok_0.log@) =~= seq![("set_gov_token"@, gov_addr@)]);
    res
}

/// Hands the allocator over to a new admin.
pub fn change_admin(contract: &mut Master, env: &Env, admin_addr: String) -> (res: Result<
    Response,
    ContractError,
>)
    ensures
        change_admin_post(*old(contract), *env, admin_addr, *final(contract), res),
        keeps_invariants(*old(contract), *final(contract)),
{
    match enforce_admin(&contract.state.admin, &env.sender) {
        Err(error) => {
            return Err(error);
        },
        Ok(()) => {},
    }
    contract.state.admin = admin_addr;
    let res = success(Vec::new(), Vec::new());
    assert(log_entries(res->Ok_0.log@) =~= Seq::empty());
    res
}

/// Pays the sink at `spy_address` what it is due and calls it back with
/// `hook`. Any sink may ask.
pub fn update_allocation(
    contract: &mut Master,
    env: &Env,
    spy_address: String,
    spy_hash: String,
    hook: Option<Vec<u8>>,
) -> (res: Result<Response, ContractError>)
    ensures
        update_allocation_post(*old(contract), *env, spy_address, spy_hash, hook, *final(contract), res),
        keeps_invariants(*old(contract), *final(contract)),
{
    let block = env.block_height;
    let mut spy = contract.load_spy(&spy_address, block);
    let mut rewards: u128 = 0;
    let mut messages: Vec<Message> = Vec::new();
    if spy.last_update_block < block && spy.weight > 0 {
        rewards = match get_spy_rewards(
            block,
            contract.state.total_weight,
            &contract.state.minting_schedule,
            spy,
        ) {
            Some(rewards) => rewards,
            None => {
                return Err(ContractError::Arithmetic);
            },
        };
        messages.push(
            Message::Mint {
                token: gov_token_of(&contract.state),
                recipient: spy_address.clone(),
                amount: rewards,
                block_size: 1,
            },
        );
    }
    if spy.last_update_block < block {
        spy.last_update_block = block;
    }
    let mut logs: Vec<LogAttribute> = Vec::new();
    logs.push(log("update_allocation", &spy_address));
    contract.spies.insert(spy_address.clone(), spy);
    messages.push(
        Message::NotifyAllocation {
            contract: SecretContract { address: spy_address, contract_hash: spy_hash },
            amount: rewards,
            hook,
        },
    );
    let res = success(messages, logs);
    assert(log_entries(res->Ok_0.log@) =~= seq![("update_allocation"@, spy_address@)]);
    res
}
/// Assigns the weights of a batch. The batch is worked through on a
/// copy of the sinks, which takes the place of the sinks only once every
/// assignment has gone through.
pub fn set_weights(contract: &mut Master, env: &Env, weights: Vec<WeightInfo>) -> (res: Result<
    Response,
    ContractError,
>)
    ensures
        set_weights_post(*old(contract), *env, weights@, *final(contract), res),
        keeps_invariants(*old(contract), *final(contract)),
{
    match enforce_admin(&contract.state.admin, &env.sender) {
        Err(error) => {
            return Err(error);
        },
        Ok(()) => {},
    }
    let block = env.block_height;
    let ghost pre = *contract;
    let mut spies = contract.spies.duplicate();
    let mut messages: Vec<Message> = Vec::new();
    let mut logs: Vec<LogAttribute> = Vec::new();
    let mut added: u128 = 0;
    let mut removed: u128 = 0;
    let mut i: usize = 0;
    assert(weights@.take(0) =~= Seq::<WeightInfo>::empty());
    assert(log_entries(logs@) =~= Seq::empty());
    while i < weights.len()
        invariant
            *contract == pre,
            pre == *old(contract),
            env.sender@ == pre.state.admin@,
            block == env.block_height,
            i <= weights@.len(),
            added <= i * u64::MAX,
            removed <= i * u64::MAX,
            spies.total(weight_of()) == pre.spies.total(weight_of()) + added - removed,
            retargeted(pre.state, block, pre.spies@, weights@.take(i as int)) == (Retarget {
                spies: spies@,
                added: added as int,
                removed: removed as int,
                messages: messages@,
                log: log_entries(logs@),
                fits: true,
            }),
        decreases weights@.len() - i,
    {
        let entry = &weights[i];
        let ghost before = retargeted(pre.state, block, pre.spies@, weights@.take(i as int));
        proof {
            assert(weights@.take(i + 1).drop_last() =~= weights@.take(i as int));
            assert(weights@.take(i + 1).last() == weights@[i as int]);
            assert((i + 1) * u64::MAX <= u128::MAX) by (nonlinear_arith)
                requires
                    0 <= i < 0xFFFF_FFFF_FFFF_FFFF,
            ;
            assert((i + 1) * u64::MAX == i * u64::MAX + u64::MAX) by (nonlinear_arith);
        }
        let spy = match spies.get(&entry.address) {
            Some(spy) => *spy,
            None => SpySettings { weight: 0, last_update_block: block },
        };
        if spy.last_update_block < block && spy.weight > 0 {
            let rewards = match get_spy_rewards(
                block,
                contract.state.total_weight,
                &contract.state.minting_schedule,
                spy,
            ) {
                Some(rewards) => rewards,
                None => {
                    proof {
                        let next = retargeted(
                            pre.state,
                            block,
                            pre.spies@,
                            weights@.take(i + 1),
                        );
                        assert(spy == spy_or_default(before.spies, entry.address@, block));
                        assert(!next.fits);
                        if retargeted(pre.state, block, pre.spies@, weights@).fits {
                            lemma_fits_prefix(pre.state, block, pre.spies@, weights@, i + 1);
                        }
                    }
                    return Err(ContractError::Arithmetic);
                },
            };
            messages.push(
                Message::Mint {
                    token: gov_token_of(&contract.state),
                    recipient: entry.address.clone(),
                    amount: rewards,
                    block_size: 1,
                },
            );
            messages.push(
                Message::NotifyAllocation {
                    contract: SecretContract {
                        address: entry.address.clone(),
                        contract_hash: entry.hash.clone(),
                    },
                    amount: rewards,
                    hook: None,
                },
            );
        }
        removed = removed + spy.weight as u128;
        added = added + entry.weight as u128;
        spies.insert(
            entry.address.clone(),
            SpySettings { weight: entry.weight, last_update_block: block },
        );
        let ghost logged = logs@;
        logs.push(log("weight_update", &entry.address));
        proof {
            assert(log_entries(logs@) =~= log_entries(logged).push(
                ("weight_update"@, entry.address@),
            ));
        }
        i += 1;
    }
    proof {
        assert(weights@.take(i as int) =~= weights@);
        assert(i * u64::MAX + u64::MAX <= u128::MAX) by (nonlinear_arith)
            requires
                0 <= i <= 0xFFFF_FFFF_FFFF_FFFF,
        ;
    }
    let base: u128 = contract.state.total_weight as u128 + added;
    if removed > base {
        return Err(ContractError::Arithmetic);
    }
    let total: u128 = base - removed;
    if total > u64::MAX as u128 {
        return Err(ContractError::Arithmetic);
    }
    contract.state.total_weight = total as u64;
    contract.spies = spies;
    success(messages, logs)
}

/// Carries out `msg`.
pub fn handle(contract: &mut Master, env: &Env, msg: MasterHandleMsg) -> (res: Result<Response, ContractError>)
    ensures
        handle_post(*old(contract), *env, msg, *final(contract), res),
        keeps_invariants(*old(contract), *final(contract)),
{
    match msg {
        MasterHandleMsg::UpdateAllocation { spy_addr, spy_hash, hook } => update_allocation(
            contract,
            env,
            spy_addr,
            spy_hash,
            hook,
        ),
        MasterHandleMsg::SetWeights { weights } => set_weights(contract, env, weights),
        MasterHandleMsg::SetSchedule { schedule } => set_schedule(contract, env, schedule),
        MasterHandleMsg::SetGovToken { addr, hash } => set_gov_token(contract, env, addr, hash),
        MasterHandleMsg::ChangeAdmin { addr } => change_admin(contract, env, addr),
    }
}

/// Who the admin is.
pub fn query_admin(contract: &Master) -> (answer: QueryAnswer)
    ensures
        answer == (QueryAnswer::Admin { address: contract.state.admin }),
{
    QueryAnswer::Admin { address: contract.state.admin.clone() }
}

/// Which token the allocator mints.
pub fn query_gov_token(contract: &Master) -> (answer: QueryAnswer)
    ensures
        answer == (QueryAnswer::GovToken {
            token_addr: contract.state.gov_token_addr,
            token_hash: contract.state.gov_token_hash,
        }),
{
    QueryAnswer::GovToken {
        token_addr: contract.state.gov_token_addr.clone(),
        token_hash: contract.state.gov_token_hash.clone(),
    }
}

/// The schedule along which the allocator mints.
pub fn query_schedule(contract: &Master) -> (answer: QueryAnswer)
    ensures
        answer is Schedule,
        answer->schedule@ == contract.state.minting_schedule@,
{
    let mut schedule: Schedule = Vec::new();
    let mut i: usize = 0;
    while i < contract.state.minting_schedule.len()
        invariant
            i <= contract.state.minting_schedule@.len(),
            schedule@ == contract.state.minting_schedule@.take(i as int),
        decreases contract.state.minting_schedule@.len() - i,
    {
        schedule.push(contract.state.minting_schedule[i]);
        i += 1;
        assert(schedule@ =~= contract.state.minting_schedule@.take(i as int));
    }
    assert(contract.state.minting_schedule@.take(i as int) =~= contract.state.minting_schedule@);
    QueryAnswer::Schedule { schedule }
}

/// The weight of the sink at `spy_address`; none for a sink that the
/// allocator has not seen.
pub fn query_spy_weight(contract: &Master, spy_address: &String) -> (answer: QueryAnswer)
    ensures
        answer == (QueryAnswer::SpyWeight {
            weight: spy_or_default(contract.spies@, spy_address@, 0).weight,
        }),
{
    let spy = contract.load_spy(spy_address, 0);
    QueryAnswer::SpyWeight { weight: spy.weight }
}

/// Answers a question.
pub fn query(contract: &Master, msg: QueryMsg) -> (answer: QueryAnswer)
    ensures
        match msg {
            QueryMsg::Admin => answer == (QueryAnswer::Admin { address: contract.state.admin }),
            QueryMsg::GovToken => answer == (QueryAnswer::GovToken {
                token_addr: contract.state.gov_token_addr,
                token_hash: contract.state.gov_token_hash,
            }),
            QueryMsg::Schedule => answer is Schedule && answer->schedule@
                == contract.state.minting_schedule@,
            QueryMsg::SpyWeight { addr } => answer == (QueryAnswer::SpyWeight {
                weight: spy_or_default(contract.spies@, addr@, 0).weight,
            }),
        },
{
    match msg {
        QueryMsg::Admin => query_admin(contract),
        QueryMsg::GovToken => query_gov_token(contract),
        QueryMsg::Schedule => query_schedule(contract),
        QueryMsg::SpyWeight { addr } => query_spy_weight(contract, &addr),
    }
}

} // verus!
