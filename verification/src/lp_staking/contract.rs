//! The operations of a staking pool.
//!
//! Every operation either succeeds and changes the pool as its contract says,
//! or fails and leaves the pool exactly as it was. For each operation a
//! predicate spells out which of the two happens and what the result is; the
//! operation's contract is that predicate, and `handle` is described by the
//! predicate of the operation it dispatches to.

use vstd::prelude::*;
use crate::constants::{INC_TOKEN_SCALE, RESPONSE_BLOCK_SIZE, REWARD_DUST, REWARD_SCALE};
use crate::error::{ContractError, enforce_admin};
use crate::lp_staking::conservation::{
    claim_at,
    conserves,
    held,
    lemma_books_balance,
    lemma_rounded_claim,
};
use crate::lp_staking::msg::{
    HandleAnswer,
    HandleData,
    InitMsg,
    LPStakingHandleMsg,
    QueryAnswer,
    QueryMsg,
    ReceiveAnswer,
    ReceiveMsg,
    Response,
};
use crate::lp_staking::state::{
    Config,
    LpStaking,
    RewardPool,
    UserInfo,
    entitlement,
    lemma_entitlement_grows,
    lemma_entitlement_of_part,
    pending_reward,
};
use crate::store::Store;
use crate::types::{
    BalanceQuery,
    Env,
    HandleResponse,
    InitResponse,
    LogAttribute,
    Message,
    ResponseStatus,
    SecretContract,
};
use crate::viewing_key::{
    VIEWING_KEY_SIZE,
    ViewingKey,
    derived_key,
    hashed_key,
    sha_256,
    sha_256_digest,
};

verus! {

/// The transfer that pays `amount` of `token` to `recipient`, or no message
/// at all when there is nothing to pay.
pub open spec fn payout(token: SecretContract, recipient: String, amount: int) -> Seq<Message> {
    if amount > 0 {
        seq![
            Message::Transfer {
                token,
                recipient,
                amount: amount as u128,
                block_size: RESPONSE_BLOCK_SIZE,
            },
        ]
    } else {
        Seq::<Message>::empty()
    }
}

/// A successful response with the given messages and answer and an empty
/// log.
pub open spec fn responds(
    res: Result<Response, ContractError>,
    messages: Seq<Message>,
    data: HandleData,
) -> bool {
    &&& res is Ok
    &&& res->Ok_0.messages@ == messages
    &&& res->Ok_0.log@ == Seq::<LogAttribute>::empty()
    &&& res->Ok_0.data == Some(data)
}

/// A failure with `error` that left the pool as it was.
pub open spec fn fails(
    pre: LpStaking,
    post: LpStaking,
    res: Result<Response, ContractError>,
    error: ContractError,
) -> bool {
    post == pre && res == Err::<Response, ContractError>(error)
}

/// The pool's totals after a settlement at the block of `env`.
pub open spec fn settled(pre: LpStaking, env: Env) -> RewardPool {
    pre.reward_pool.updated(env.block_height, pre.config.deadline)
}

/// Whether the settlement at the block of `env` fits in 128 bits.
pub open spec fn settles(pre: LpStaking, env: Env) -> bool {
    pre.reward_pool.update_fits(env.block_height, pre.config.deadline)
}

/// What `deposit` does: only the incentivised token may deposit. The pool is
/// settled, the staker is paid what they are owed, and `amount` is added to
/// their stake and to the supply.
pub open spec fn deposit_post(
    pre: LpStaking,
    env: Env,
    from: String,
    amount: u128,
    post: LpStaking,
    res: Result<Response, ContractError>,
) -> bool {
    let pool = settled(pre, env);
    let acc = pool.acc_reward_per_share;
    let user = pre.user(from@);
    let locked = user.locked + amount;
    let fits = {
        &&& settles(pre, env)
        &&& user.locked > 0 ==> user.locked * acc <= u128::MAX && user.pending(acc) >= 0
        &&& locked <= u128::MAX
        &&& locked * acc <= u128::MAX
        &&& pool.inc_token_supply + amount <= u128::MAX
    };
    if env.sender@ != pre.config.inc_token.address@ {
        fails(
            pre,
            post,
            res,
            ContractError::UnsupportedToken {
                supported: pre.config.inc_token.address,
                given: env.sender,
            },
        )
    } else if !fits {
        fails(pre, post, res, ContractError::Arithmetic)
    } else {
        &&& post.config == pre.config
        &&& post.viewing_keys == pre.viewing_keys
        &&& post.reward_pool == RewardPool {
            inc_token_supply: (pool.inc_token_supply + amount) as u128,
            ..pool
        }
        &&& post.users@ == pre.users@.insert(
            from@,
            UserInfo { locked: locked as u128, debt: (locked * acc / (REWARD_SCALE as int)) as u128 },
        )
        &&& responds(
            res,
            payout(
                pre.config.reward_token,
                from,
                if user.locked > 0 {
                    user.pending(acc)
                } else {
                    0
                },
            ),
            HandleData::Receive(ReceiveAnswer::Deposit { status: ResponseStatus::Success }),
        )
    }
}

/// The stake, in the pool's own units, that a redemption of `amount` takes
/// out: the amount asked for, scaled down, or everything the staker has
/// locked.
pub open spec fn redeemed_stake(user: UserInfo, amount: Option<u128>) -> int {
    match amount {
        Some(asked) => asked as int / (INC_TOKEN_SCALE as int),
        None => user.locked as int,
    }
}

/// What `redeem` does: the pool is settled, the sender is paid what they are
/// owed and gets the redeemed stake back; stake and supply shrink by it.
pub open spec fn redeem_post(
    pre: LpStaking,
    env: Env,
    amount: Option<u128>,
    post: LpStaking,
    res: Result<Response, ContractError>,
) -> bool {
    let pool = settled(pre, env);
    let acc = pool.acc_reward_per_share;
    let user = pre.user(env.sender@);
    let taken = redeemed_stake(user, amount);
    let left = user.locked - taken;
    let fits = {
        &&& settles(pre, env)
        &&& user.locked * acc <= u128::MAX
        &&& user.pending(acc) >= 0
        &&& taken <= pool.inc_token_supply
        &&& taken * INC_TOKEN_SCALE <= u128::MAX
    };
    if taken > user.locked {
        fails(
            pre,
            post,
            res,
            ContractError::InsufficientFunds { balance: user.locked, required: taken as u128 },
        )
    } else if !fits {
        fails(pre, post, res, ContractError::Arithmetic)
    } else {
        &&& post.config == pre.config
        &&& post.viewing_keys == pre.viewing_keys
        &&& post.reward_pool == RewardPool {
            inc_token_supply: (pool.inc_token_supply - taken) as u128,
            ..pool
        }
        &&& post.users@ == pre.users@.insert(
            env.sender@,
            UserInfo { locked: left as u128, debt: (left * acc / (REWARD_SCALE as int)) as u128 },
        )
        &&& responds(
            res,
            payout(pre.config.reward_token, env.sender, user.pending(acc)).push(
                Message::Transfer {
                    token: pre.config.inc_token,
                    recipient: env.sender,
                    amount: (taken * INC_TOKEN_SCALE) as u128,
                    block_size: RESPONSE_BLOCK_SIZE,
                },
            ),
            HandleData::Handle(HandleAnswer::Redeem { status: ResponseStatus::Success }),
        )
    }
}

/// What `deposit_rewards` does: only the reward token may deposit rewards,
/// and only more than the dust. The pool is settled and `amount` less the
/// dust is added to the pending rewards.
pub open spec fn deposit_rewards_post(
    pre: LpStaking,
    env: Env,
    amount: u128,
    post: LpStaking,
    res: Result<Response, ContractError>,
) -> bool {
    let pool = settled(pre, env);
    let pending = pool.pending_rewards + amount - REWARD_DUST;
    if env.sender@ != pre.config.reward_token.address@ {
        fails(
            pre,
            post,
            res,
            ContractError::UnsupportedToken {
                supported: pre.config.reward_token.address,
                given: env.sender,
            },
        )
    } else if amount <= REWARD_DUST {
        fails(pre, post, res, ContractError::InvalidAmount { amount })
    } else if !(settles(pre, env) && pending <= u128::MAX) {
        fails(pre, post, res, ContractError::Arithmetic)
    } else {
        &&& post.config == pre.config
        &&& post.viewing_keys == pre.viewing_keys
        &&& post.users == pre.users
        &&& post.reward_pool == RewardPool { pending_rewards: pending as u128, ..pool }
        &&& responds(
            res,
            Seq::<Message>::empty(),
            HandleData::Receive(ReceiveAnswer::DepositRewards { status: ResponseStatus::Success }),
        )
    }
}

/// What `emergency_redeem` does: the sender gets their whole stake back and
/// their record is wiped, whatever the pool owed them. The pool is not
/// settled.
pub open spec fn emergency_redeem_post(
    pre: LpStaking,
    env: Env,
    post: LpStaking,
    res: Result<Response, ContractError>,
) -> bool {
    let user = pre.user(env.sender@);
    let fits = user.locked <= pre.reward_pool.inc_token_supply && user.locked * INC_TOKEN_SCALE
        <= u128::MAX;
    if !fits {
        fails(pre, post, res, ContractError::Arithmetic)
    } else {
        &&& post.config == pre.config
        &&& post.viewing_keys == pre.viewing_keys
        &&& post.reward_pool == RewardPool {
            inc_token_supply: (pre.reward_pool.inc_token_supply - user.locked) as u128,
            ..pre.reward_pool
        }
        &&& post.users@ == pre.users@.insert(env.sender@, UserInfo { locked: 0, debt: 0 })
        &&& responds(
            res,
            payout(pre.config.inc_token, env.sender, user.locked * INC_TOKEN_SCALE),
            HandleData::Handle(HandleAnswer::EmergencyRedeem { status: ResponseStatus::Success }),
        )
    }
}

/// What `claim_reward_pool` does: from the claim block on, the admin sweeps
/// the pool's whole reward balance to `to`, or to themselves. The pool's
/// records do not change.
pub open spec fn claim_reward_pool_post(
    pre: LpStaking,
    env: Env,
    to: Option<String>,
    balance: BalanceQuery,
    post: LpStaking,
    res: Result<Response, ContractError>,
) -> bool {
    if env.sender@ != pre.config.admin@ {
        fails(pre, post, res, ContractError::NotAdmin { sender: env.sender })
    } else if env.block_height < pre.config.pool_claim_block {
        fails(
            pre,
            post,
            res,
            ContractError::ClaimTooEarly { claim_block: pre.config.pool_claim_block },
        )
    } else {
        match balance {
            BalanceQuery::Failed(reason) => fails(
                pre,
                post,
                res,
                ContractError::BalanceQueryFailed { reason },
            ),
            BalanceQuery::Balance(amount) => {
                &&& post == pre
                &&& responds(
                    res,
                    seq![
                        Message::Transfer {
                            token: pre.config.reward_token,
                            recipient: match to {
                                Some(recipient) => recipient,
                                None => env.sender,
                            },
                            amount,
                            block_size: RESPONSE_BLOCK_SIZE,
                        },
                    ],
                    HandleData::Handle(
                        HandleAnswer::ClaimRewardPool { status: ResponseStatus::Success },
                    ),
                )
            },
        }
    }
}

/// What `stop_contract` and `resume_contract` do: the admin sets the stop
/// switch to `stopped`; nothing else changes.
pub open spec fn switch_post(
    pre: LpStaking,
    env: Env,
    stopped: bool,
    post: LpStaking,
    res: Result<Response, ContractError>,
) -> bool {
    if env.sender@ != pre.config.admin@ {
        fails(pre, post, res, ContractError::NotAdmin { sender: env.sender })
    } else {
        &&& post.config == Config { is_stopped: stopped, ..pre.config }
        &&& post.reward_pool == pre.reward_pool
        &&& post.users == pre.users
        &&& post.viewing_keys == pre.viewing_keys
        &&& responds(
            res,
            Seq::<Message>::empty(),
            HandleData::Handle(
                if stopped {
                    HandleAnswer::StopContract { status: ResponseStatus::Success }
                } else {
                    HandleAnswer::ResumeContract { status: ResponseStatus::Success }
                },
            ),
        )
    }
}

/// What `change_admin` does: the admin hands the pool over to `address`.
pub open spec fn change_admin_post(
    pre: LpStaking,
    env: Env,
    address: String,
    post: LpStaking,
    res: Result<Response, ContractError>,
) -> bool {
    if env.sender@ != pre.config.admin@ {
        fails(pre, post, res, ContractError::NotAdmin { sender: env.sender })
    } else {
        &&& post.config == Config { admin: address, ..pre.config }
        &&& post.reward_pool == pre.reward_pool
        &&& post.users == pre.users
        &&& post.viewing_keys == pre.viewing_keys
        &&& responds(
            res,
            Seq::<Message>::empty(),
            HandleData::Handle(HandleAnswer::ChangeAdmin { status: ResponseStatus::Success }),
        )
    }
}

/// What `set_deadline` does: the admin moves the end of the epoch to
/// `height`. The pool is first settled under the old deadline. A deadline
/// that lies before the present block, or before the block up to which the
/// pool is settled, is refused.
pub open spec fn set_deadline_post(
    pre: LpStaking,
    env: Env,
    height: u64,
    post: LpStaking,
    res: Result<Response, ContractError>,
) -> bool {
    let pool = settled(pre, env);
    if env.sender@ != pre.config.admin@ {
        fails(pre, post, res, ContractError::NotAdmin { sender: env.sender })
    } else if height < env.block_height {
        fails(pre, post, res, ContractError::DeadlinePassed { height, block: env.block_height })
    } else if !settles(pre, env) {
        fails(pre, post, res, ContractError::Arithmetic)
    } else if height < pool.last_reward_block {
        fails(
            pre,
            post,
            res,
            ContractError::DeadlinePassed { height, block: pool.last_reward_block },
        )
    } else {
        &&& post.config == Config { deadline: height, ..pre.config }
        &&& post.reward_pool == pool
        &&& post.users == pre.users
        &&& post.viewing_keys == pre.viewing_keys
        &&& responds(
            res,
            Seq::<Message>::empty(),
            HandleData::Handle(HandleAnswer::SetDeadline { status: ResponseStatus::Success }),
        )
    }
}

/// That `post` differs from `pre` in one thing only: the digest stored for
/// `address` is `digest`.
pub open spec fn stores_key(pre: LpStaking, address: Seq<char>, digest: Seq<u8>, post: LpStaking) -> bool {
    &&& post.config == pre.config
    &&& post.reward_pool == pre.reward_pool
    &&& post.users == pre.users
    &&& post.viewing_keys@.dom() == pre.viewing_keys@.dom().insert(address)
    &&& post.viewing_keys@[address]@ == digest
    &&& forall|other: Seq<char>|
        other != address && #[trigger] pre.viewing_keys@.contains_key(other)
            ==> post.viewing_keys@[other] == pre.viewing_keys@[other]
}

/// What `set_viewing_key` does: the digest of `key` is stored for the
/// sender.
pub open spec fn set_viewing_key_post(
    pre: LpStaking,
    env: Env,
    key: String,
    post: LpStaking,
    res: Result<Response, ContractError>,
) -> bool {
    &&& stores_key(pre, env.sender@, hashed_key(key@), post)
    &&& responds(
        res,
        Seq::<Message>::empty(),
        HandleData::Handle(HandleAnswer::SetViewingKey { status: ResponseStatus::Success }),
    )
}

/// What `create_viewing_key` does: a key is derived for the sender, its
/// digest is stored and the key is handed back.
pub open spec fn create_viewing_key_post(
    pre: LpStaking,
    env: Env,
    entropy: String,
    post: LpStaking,
    res: Result<Response, ContractError>,
) -> bool {
    let text = derived_key(pre.config.prng_seed@, env, entropy@);
    &&& stores_key(pre, env.sender@, hashed_key(text), post)
    &&& res is Ok
    &&& res->Ok_0.messages@ == Seq::<Message>::empty()
    &&& res->Ok_0.log@ == Seq::<LogAttribute>::empty()
    &&& res->Ok_0.data is Some
    &&& res->Ok_0.data->0 is Handle
    &&& res->Ok_0.data->0->Handle_0 is CreateViewingKey
    &&& res->Ok_0.data->0->Handle_0->key.0@ == text
}

/// What `handle` does. A stopped pool accepts an emergency redemption and
/// the order to resume, and nothing else; a running pool accepts everything
/// but those two.
pub open spec fn handle_post(
    pre: LpStaking,
    env: Env,
    msg: LPStakingHandleMsg,
    reward_balance: BalanceQuery,
    post: LpStaking,
    res: Result<Response, ContractError>,
) -> bool {
    if pre.config.is_stopped {
        match msg {
            LPStakingHandleMsg::EmergencyRedeem => emergency_redeem_post(pre, env, post, res),
            LPStakingHandleMsg::ResumeContract => switch_post(pre, env, false, post, res),
            _ => fails(pre, post, res, ContractError::ContractStopped),
        }
    } else {
        match msg {
            LPStakingHandleMsg::Redeem { amount } => redeem_post(pre, env, amount, post, res),
            LPStakingHandleMsg::Receive { from, amount, msg, .. } => match msg {
                ReceiveMsg::Deposit => deposit_post(pre, env, from, amount, post, res),
                ReceiveMsg::DepositRewards => deposit_rewards_post(pre, env, amount, post, res),
            },
            LPStakingHandleMsg::CreateViewingKey { entropy } => create_viewing_key_post(
                pre,
                env,
                entropy,
                post,
                res,
            ),
            LPStakingHandleMsg::SetViewingKey { key } => set_viewing_key_post(
                pre,
                env,
                key,
                post,
                res,
            ),
            LPStakingHandleMsg::ClaimRewardPool { to } => claim_reward_pool_post(
                pre,
                env,
                to,
                reward_balance,
                post,
                res,
            ),
            LPStakingHandleMsg::StopContract => switch_post(pre, env, true, post, res),
            LPStakingHandleMsg::ChangeAdmin { address } => change_admin_post(
                pre,
                env,
                address,
                post,
                res,
            ),
            LPStakingHandleMsg::SetDeadline { block } => set_deadline_post(
                pre,
                env,
                block,
                post,
                res,
            ),
            LPStakingHandleMsg::EmergencyRedeem => fails(
                pre,
                post,
                res,
                ContractError::UnavailableAction,
            ),
            LPStakingHandleMsg::ResumeContract => fails(
                pre,
                post,
                res,
                ContractError::UnavailableAction,
            ),
        }
    }
}

/// What a deposit for the staker at `from` pays that staker in rewards.
pub open spec fn deposit_pays(pre: LpStaking, env: Env, from: Seq<char>) -> int {
    let user = pre.user(from);
    if user.locked > 0 {
        user.pending(settled(pre, env).acc_reward_per_share)
    } else {
        0
    }
}

/// What a redemption pays the sender in rewards.
pub open spec fn redeem_pays(pre: LpStaking, env: Env) -> int {
    pre.user(env.sender@).pending(settled(pre, env).acc_reward_per_share)
}

/// What `msg`, if it succeeds, pays out of the rewards that the pool holds.
/// The sweep of the pool pays out of the pool's token balance, not out of
/// its books, and counts for nothing here.
pub open spec fn rewards_paid(pre: LpStaking, env: Env, msg: LPStakingHandleMsg) -> int {
    match msg {
        LPStakingHandleMsg::Redeem { .. } => redeem_pays(pre, env),
        LPStakingHandleMsg::Receive { from, msg, .. } => match msg {
            ReceiveMsg::Deposit => deposit_pays(pre, env, from@),
            ReceiveMsg::DepositRewards => 0,
        },
        _ => 0,
    }
}

/// What `msg`, if it succeeds, adds to the rewards that the pool holds.
pub open spec fn rewards_funded(msg: LPStakingHandleMsg) -> int {
    match msg {
        LPStakingHandleMsg::Receive { amount, msg, .. } => match msg {
            ReceiveMsg::Deposit => 0,
            ReceiveMsg::DepositRewards => amount - REWARD_DUST,
        },
        _ => 0,
    }
}

/// What every operation keeps: the supply stays the sum of the stakes,
/// debts stay covered, the pool stays within its epoch, and neither the
/// accumulator nor the settled block ever goes back.
pub open spec fn keeps_invariants(pre: LpStaking, post: LpStaking) -> bool {
    &&& pre.supply_matches() ==> post.supply_matches()
    &&& pre.debts_covered() ==> post.debts_covered()
    &&& pre.within_epoch() ==> post.within_epoch()
    &&& post.reward_pool.acc_reward_per_share >= pre.reward_pool.acc_reward_per_share
    &&& post.reward_pool.last_reward_block >= pre.reward_pool.last_reward_block
}

fn success(messages: Vec<Message>, data: HandleData) -> (res: Result<Response, ContractError>)
    ensures
        responds(res, messages@, data),
{
    Ok(HandleResponse { messages, log: Vec::new(), data: Some(data) })
}

fn transfer(token: &SecretContract, recipient: &String, amount: u128) -> (message: Message)
    ensures
        message == (Message::Transfer {
            token: *token,
            recipient: *recipient,
            amount,
            block_size: RESPONSE_BLOCK_SIZE,
        }),
{
    Message::Transfer {
        token: token.clone(),
        recipient: recipient.clone(),
        amount,
        block_size: RESPONSE_BLOCK_SIZE,
    }
}

/// A staker on record without stake has no debt either, where debts are
/// covered.
proof fn lemma_no_stake_no_debt(pre: LpStaking, staker: Seq<char>)
    requires
        pre.debts_covered(),
        pre.user(staker).locked == 0,
    ensures
        pre.user(staker).debt == 0,
{
    if pre.users@.contains_key(staker) {
        let user = pre.users@[staker];
        let acc = pre.reward_pool.acc_reward_per_share;
        assert(user.pending(acc) >= 0);
        assert(user.locked * acc / (REWARD_SCALE as int) == 0) by (nonlinear_arith)
            requires
                user.locked == 0,
        ;
    }
}

/// A raised accumulator keeps every debt covered.
proof fn lemma_debts_stay_covered(pre: LpStaking, acc: u128)
    requires
        pre.reward_pool.acc_reward_per_share <= acc,
    ensures
        pre.debts_covered() ==> forall|address: Seq<char>| #[trigger]
            pre.users@.contains_key(address) ==> pre.users@[address].pending(acc) >= 0,
{
    if pre.debts_covered() {
        assert forall|address: Seq<char>| #[trigger]
            pre.users@.contains_key(address) implies pre.users@[address].pending(acc) >= 0 by {
            lemma_entitlement_grows(pre.users@[address], pre.reward_pool.acc_reward_per_share, acc);
        }
    }
}

/// Creates a pool: the sender becomes its admin, nothing is staked or
/// pending, and the pool registers with both tokens and sets its viewing key
/// at both.
pub fn init(env: &Env, msg: InitMsg) -> (created: (LpStaking, InitResponse))
    ensures
        created.0.supply_matches(),
        created.0.debts_covered(),
        created.0.within_epoch(),
        created.0.config.admin == env.sender,
        created.0.config.reward_token == msg.reward_token,
        created.0.config.inc_token == msg.inc_token,
        created.0.config.master == msg.master,
        created.0.config.deadline == msg.deadline,
        created.0.config.pool_claim_block == msg.pool_claim_block,
        !created.0.config.is_stopped,
        created.0.config.viewing_key == msg.viewing_key,
        created.0.config.prng_seed@ == sha_256_digest(msg.prng_seed@),
        created.0.reward_pool == (RewardPool {
            pending_rewards: 0,
            inc_token_supply: 0,
            last_reward_block: 0,
            acc_reward_per_share: 0,
        }),
        created.0.users@ == Map::<Seq<char>, UserInfo>::empty(),
        created.0.viewing_keys@ == Map::<Seq<char>, Vec<u8>>::empty(),
        created.1.log@ == Seq::<LogAttribute>::empty(),
        created.1.messages@ == seq![
            Message::RegisterReceive {
                token: msg.reward_token,
                code_hash: env.contract_code_hash,
                block_size: 1,
            },
            Message::RegisterReceive {
                token: msg.inc_token,
                code_hash: env.contract_code_hash,
                block_size: 1,
            },
            Message::SetViewingKey {
                token: msg.reward_token,
                key: msg.viewing_key,
                block_size: RESPONSE_BLOCK_SIZE,
            },
            Message::SetViewingKey {
                token: msg.inc_token,
                key: msg.viewing_key,
                block_size: RESPONSE_BLOCK_SIZE,
            },
        ],
{
    let seed = sha_256(msg.prng_seed.as_slice());
    let mut messages: Vec<Message> = Vec::new();
    messages.push(
        Message::RegisterReceive {
            token: msg.reward_token.clone(),
            code_hash: env.contract_code_hash.clone(),
            block_size: 1,
        },
    );
    messages.push(
        Message::RegisterReceive {
            token: msg.inc_token.clone(),
            code_hash: env.contract_code_hash.clone(),
            block_size: 1,
        },
    );
    messages.push(
        Message::SetViewingKey {
            token: msg.reward_token.clone(),
            key: msg.viewing_key.clone(),
            block_size: RESPONSE_BLOCK_SIZE,
        },
    );
    messages.push(
        Message::SetViewingKey {
            token: msg.inc_token.clone(),
            key: msg.viewing_key.clone(),
            block_size: RESPONSE_BLOCK_SIZE,
        },
    );
    let contract = LpStaking {
        config: Config {
            admin: env.sender.clone(),
            reward_token: msg.reward_token,
            inc_token: msg.inc_token,
            master: msg.master,
            deadline: msg.deadline,
            pool_claim_block: msg.pool_claim_block,
            is_stopped: false,
            viewing_key: msg.viewing_key,
            prng_seed: seed,
        },
        reward_pool: RewardPool {
            pending_rewards: 0,
            inc_token_supply: 0,
            last_reward_block: 0,
            acc_reward_per_share: 0,
        },
        users: Store::new(),
        viewing_keys: Store::new(),
    };
    (contract, InitResponse { messages, log: Vec::new() })
}

/// Locks `amount` of stake for `from`.
pub fn deposit(contract: &mut LpStaking, env: &Env, from: String, amount: u128) -> (res: Result<
    Response,
    ContractError,
>)
    ensures
        deposit_post(*old(contract), *env, from, amount, *final(contract), res),
        keeps_invariants(*old(contract), *final(contract)),
        res is Ok ==> conserves(
            *old(contract),
            *final(contract),
            deposit_pays(*old(contract), *env, from@),
            0,
        ),
{
    if env.sender != contract.config.inc_token.address {
        return Err(
            ContractError::UnsupportedToken {
                supported: contract.config.inc_token.address.clone(),
                given: env.sender.clone(),
            },
        );
    }
    let mut pool = contract.reward_pool;
    match pool.update_rewards(env.block_height, contract.config.deadline) {
        Err(error) => {
            return Err(error);
        },
        Ok(()) => {},
    }
    let acc = pool.acc_reward_per_share;
    let user = contract.load_user(&from);
    let ghost staker = from@;
    let mut messages: Vec<Message> = Vec::new();
    if user.locked > 0 {
        let pending = match pending_reward(&user, acc) {
            Some(pending) => pending,
            None => {
                return Err(ContractError::Arithmetic);
            },
        };
        if pending > 0 {
            messages.push(transfer(&contract.config.reward_token, &from, pending));
        }
    }
    let locked = match user.locked.checked_add(amount) {
        Some(locked) => locked,
        None => {
            return Err(ContractError::Arithmetic);
        },
    };
    let debt = match entitlement(locked, acc) {
        Some(debt) => debt,
        None => {
            return Err(ContractError::Arithmetic);
        },
    };
    let supply = match pool.inc_token_supply.checked_add(amount) {
        Some(supply) => supply,
        None => {
            return Err(ContractError::Arithmetic);
        },
    };
    proof {
        lemma_debts_stay_covered(*contract, acc);
    }
    pool.inc_token_supply = supply;
    contract.users.insert(from, UserInfo { locked, debt });
    contract.reward_pool = pool;
    proof {
        let pre = *old(contract);
        if pre.supply_matches() && pre.debts_covered() {
            let known = pre.users@.contains_key(staker);
            let old_claim = if known {
                claim_at(acc as int)(user)
            } else {
                0
            };
            let new_claim = claim_at(acc as int)(UserInfo { locked, debt });
            lemma_rounded_claim(user.locked, acc);
            lemma_rounded_claim(locked, acc);
            if user.locked == 0 {
                lemma_no_stake_no_debt(pre, staker);
                assert(user.locked * acc == 0) by (nonlinear_arith)
                    requires
                        user.locked == 0,
                ;
            }
            assert(contract.users.total(claim_at(acc as int)) == pre.users.total(
                claim_at(acc as int),
            ) - old_claim + new_claim);
            lemma_books_balance(
                pre,
                env.block_height,
                old_claim,
                new_claim,
                deposit_pays(pre, *env, staker),
                0,
                *contract,
            );
        }
    }
    success(messages, HandleData::Receive(ReceiveAnswer::Deposit { status: ResponseStatus::Success }))
}

/// Takes `amount` of the sender's stake out, or all of it.
pub fn redeem(contract: &mut LpStaking, env: &Env, amount: Option<u128>) -> (res: Result<Response, ContractError>)
    ensures
        redeem_post(*old(contract), *env, amount, *final(contract), res),
        keeps_invariants(*old(contract), *final(contract)),
        res is Ok ==> conserves(*old(contract), *final(contract), redeem_pays(*old(contract), *env), 0),
{
    let user = contract.load_user(&env.sender);
    let taken: u128 = match amount {
        Some(asked) => asked / INC_TOKEN_SCALE,
        None => user.locked,
    };
    if taken > user.locked {
        return Err(ContractError::InsufficientFunds { balance: user.locked, required: taken });
    }
    let mut pool = contract.reward_pool;
    match pool.update_rewards(env.block_height, contract.config.deadline) {
        Err(error) => {
            return Err(error);
        },
        Ok(()) => {},
    }
    let acc = pool.acc_reward_per_share;
    let pending = match pending_reward(&user, acc) {
        Some(pending) => pending,
        None => {
            return Err(ContractError::Arithmetic);
        },
    };
    let supply = match pool.inc_token_supply.checked_sub(taken) {
        Some(supply) => supply,
        None => {
            return Err(ContractError::Arithmetic);
        },
    };
    let returned = match taken.checked_mul(INC_TOKEN_SCALE) {
        Some(returned) => returned,
        None => {
            return Err(ContractError::Arithmetic);
        },
    };
    let locked: u128 = user.locked - taken;
    proof {
        lemma_entitlement_of_part(locked, user.locked, acc);
        lemma_debts_stay_covered(*contract, acc);
    }
    let debt = match entitlement(locked, acc) {
        Some(debt) => debt,
        None => {
            return Err(ContractError::Arithmetic);
        },
    };
    let mut messages: Vec<Message> = Vec::new();
    if pending > 0 {
        messages.push(transfer(&contract.config.reward_token, &env.sender, pending));
    }
    messages.push(transfer(&contract.config.inc_token, &env.sender, returned));
    pool.inc_token_supply = supply;
    contract.users.insert(env.sender.clone(), UserInfo { locked, debt });
    contract.reward_pool = pool;
    proof {
        let pre = *old(contract);
        if pre.supply_matches() && pre.debts_covered() {
            let known = pre.users@.contains_key(env.sender@);
            let old_claim = if known {
                claim_at(acc as int)(user)
            } else {
                0
            };
            let new_claim = claim_at(acc as int)(UserInfo { locked, debt });
            lemma_rounded_claim(user.locked, acc);
            lemma_rounded_claim(locked, acc);
            let earned = user.locked * acc / (REWARD_SCALE as int);
            assert((earned - user.debt) * REWARD_SCALE == earned * REWARD_SCALE - user.debt
                * REWARD_SCALE) by (nonlinear_arith);
            if !known {
                assert(user.locked * acc == 0) by (nonlinear_arith)
                    requires
                        user.locked == 0,
                ;
            }
            assert(redeem_pays(pre, *env) == earned - user.debt);
            assert(contract.users.total(claim_at(acc as int)) == pre.users.total(
                claim_at(acc as int),
            ) - old_claim + new_claim);
            lemma_books_balance(
                pre,
                env.block_height,
                old_claim,
                new_claim,
                redeem_pays(pre, *env),
                0,
                *contract,
            );
        }
    }
    success(messages, HandleData::Handle(HandleAnswer::Redeem { status: ResponseStatus::Success }))
}

/// Adds `amount`, less the dust, to the rewards that will vest.
pub fn deposit_rewards(contract: &mut LpStaking, env: &Env, amount: u128) -> (res: Result<Response, ContractError>)
    ensures
        deposit_rewards_post(*old(contract), *env, amount, *final(contract), res),
        keeps_invariants(*old(contract), *final(contract)),
        res is Ok ==> conserves(*old(contract), *final(contract), 0, amount - REWARD_DUST),
{
    if env.sender != contract.config.reward_token.address {
        return Err(
            ContractError::UnsupportedToken {
                supported: contract.config.reward_token.address.clone(),
                given: env.sender.clone(),
            },
        );
    }
    if amount <= REWARD_DUST {
        return Err(ContractError::InvalidAmount { amount });
    }
    let mut pool = contract.reward_pool;
    match pool.update_rewards(env.block_height, contract.config.deadline) {
        Err(error) => {
            return Err(error);
        },
        Ok(()) => {},
    }
    let pending = match pool.pending_rewards.checked_add(amount - REWARD_DUST) {
        Some(pending) => pending,
        None => {
            return Err(ContractError::Arithmetic);
        },
    };
    proof {
        lemma_debts_stay_covered(*contract, pool.acc_reward_per_share);
    }
    pool.pending_rewards = pending;
    contract.reward_pool = pool;
    proof {
        let pre = *old(contract);
        if pre.supply_matches() && pre.debts_covered() {
            lemma_books_balance(pre, env.block_height, 0, 0, 0, amount - REWARD_DUST, *contract);
        }
    }
    success(
        Vec::new(),
        HandleData::Receive(ReceiveAnswer::DepositRewards { status: ResponseStatus::Success }),
    )
}

/// Hands the sender their whole stake back and wipes their record. The
/// rewards the pool owed them are forfeited.
pub fn emergency_redeem(contract: &mut LpStaking, env: &Env) -> (res: Result<Response, ContractError>)
    ensures
        emergency_redeem_post(*old(contract), *env, *final(contract), res),
        keeps_invariants(*old(contract), *final(contract)),
        old(contract).debts_covered() ==> held(*final(contract)) <= held(*old(contract)),
{
    let user = contract.load_user(&env.sender);
    let supply = match contract.reward_pool.inc_token_supply.checked_sub(user.locked) {
        Some(supply) => supply,
        None => {
            return Err(ContractError::Arithmetic);
        },
    };
    let returned = match user.locked.checked_mul(INC_TOKEN_SCALE) {
        Some(returned) => returned,
        None => {
            return Err(ContractError::Arithmetic);
        },
    };
    let mut messages: Vec<Message> = Vec::new();
    if user.locked > 0 {
        messages.push(transfer(&contract.config.inc_token, &env.sender, returned));
    }
    proof {
        let cleared = UserInfo { locked: 0, debt: 0 };
        assert(cleared.pending(contract.reward_pool.acc_reward_per_share) == 0) by (nonlinear_arith)
            requires
                cleared.locked == 0,
                cleared.debt == 0,
                cleared.pending(contract.reward_pool.acc_reward_per_share) == cleared.locked
                    * contract.reward_pool.acc_reward_per_share / (REWARD_SCALE as int)
                    - cleared.debt,
        ;
    }
    contract.reward_pool.inc_token_supply = supply;
    contract.users.insert(env.sender.clone(), UserInfo { locked: 0, debt: 0 });
    proof {
        let pre = *old(contract);
        let acc = pre.reward_pool.acc_reward_per_share;
        if pre.debts_covered() {
            lemma_rounded_claim(user.locked, acc);
            let earned = user.locked * acc / (REWARD_SCALE as int);
            assert(pre.users@.contains_key(env.sender@) ==> (earned - user.debt)
                * REWARD_SCALE >= 0) by (nonlinear_arith)
                requires
                    pre.users@.contains_key(env.sender@) ==> earned - user.debt >= 0,
            ;
            assert((earned - user.debt) * REWARD_SCALE == earned * REWARD_SCALE - user.debt
                * REWARD_SCALE) by (nonlinear_arith);
            assert(claim_at(acc as int)(UserInfo { locked: 0, debt: 0 }) == 0) by (nonlinear_arith);
            assert(contract.users.total(claim_at(acc as int)) <= pre.users.total(
                claim_at(acc as int),
            ));
        }
    }
    success(
        messages,
        HandleData::Handle(HandleAnswer::EmergencyRedeem { status: ResponseStatus::Success }),
    )
}

/// Sweeps the pool's reward balance to `recipient`, or to the admin.
/// `balance` is what the reward token answered when the host asked it
/// for the pool's balance.
pub fn claim_reward_pool(contract: &LpStaking, env: &Env, recipient: Option<String>, balance: &BalanceQuery) -> (res:
    Result<Response, ContractError>)
    ensures
        claim_reward_pool_post(*contract, *env, recipient, *balance, *contract, res),
{
    match enforce_admin(&contract.config.admin, &env.sender) {
        Err(error) => {
            return Err(error);
        },
        Ok(()) => {},
    }
    if env.block_height < contract.config.pool_claim_block {
        return Err(ContractError::ClaimTooEarly { claim_block: contract.config.pool_claim_block });
    }
    let amount = match balance {
        BalanceQuery::Failed(reason) => {
            return Err(ContractError::BalanceQueryFailed { reason: reason.clone() });
        },
        BalanceQuery::Balance(amount) => *amount,
    };
    let to = match recipient {
        Some(to) => to,
        None => env.sender.clone(),
    };
    let mut messages: Vec<Message> = Vec::new();
    messages.push(transfer(&contract.config.reward_token, &to, amount));
    success(
        messages,
        HandleData::Handle(HandleAnswer::ClaimRewardPool { status: ResponseStatus::Success }),
    )
}

/// Stops the pool: from now on it accepts emergency redemptions and the
/// order to resume, and nothing else.
pub fn stop_contract(contract: &mut LpStaking, env: &Env) -> (res: Result<Response, ContractError>)
    ensures
        switch_post(*old(contract), *env, true, *final(contract), res),
        keeps_invariants(*old(contract), *final(contract)),
{
    match enforce_admin(&contract.config.admin, &env.sender) {
        Err(error) => {
            return Err(error);
        },
        Ok(()) => {},
    }
    contract.config.is_stopped = true;
    success(
        Vec::new(),
        HandleData::Handle(HandleAnswer::StopContract { status: ResponseStatus::Success }),
    )
}

/// Resumes a stopped pool.
pub fn resume_contract(contract: &mut LpStaking, env: &Env) -> (res: Result<Response, ContractError>)
    ensures
        switch_post(*old(contract), *env, false, *final(contract), res),
        keeps_invariants(*old(contract), *final(contract)),
{
    match enforce_admin(&contract.config.admin, &env.sender) {
        Err(error) => {
            return Err(error);
        },
        Ok(()) => {},
    }
    contract.config.is_stopped = false;
    success(
        Vec::new(),
        HandleData::Handle(HandleAnswer::ResumeContract { status: ResponseStatus::Success }),
    )
}

/// Hands the pool over to a new admin.
pub fn change_admin(contract: &mut LpStaking, env: &Env, address: String) -> (res: Result<Response, ContractError>)
    ensures
        change_admin_post(*old(contract), *env, address, *final(contract), res),
        keeps_invariants(*old(contract), *final(contract)),
{
    match enforce_admin(&contract.config.admin, &env.sender) {
        Err(error) => {
            return Err(error);
        },
        Ok(()) => {},
    }
    contract.config.admin = address;
    success(
        Vec::new(),
        HandleData::Handle(HandleAnswer::ChangeAdmin { status: ResponseStatus::Success }),
    )
}

/// Moves the end of the epoch to `height`, after settling the pool under
/// the deadline that held so far.
pub fn set_deadline(contract: &mut LpStaking, env: &Env, height: u64) -> (res: Result<Response, ContractError>)
    ensures
        set_deadline_post(*old(contract), *env, height, *final(contract), res),
        keeps_invariants(*old(contract), *final(contract)),
        res is Ok ==> conserves(*old(contract), *final(contract), 0, 0),
{
    match enforce_admin(&contract.config.admin, &env.sender) {
        Err(error) => {
            return Err(error);
        },
        Ok(()) => {},
    }
    if height < env.block_height {
        return Err(ContractError::DeadlinePassed { height, block: env.block_height });
    }
    let mut pool = contract.reward_pool;
    match pool.update_rewards(env.block_height, contract.config.deadline) {
        Err(error) => {
            return Err(error);
        },
        Ok(()) => {},
    }
    if height < pool.last_reward_block {
        return Err(ContractError::DeadlinePassed { height, block: pool.last_reward_block });
    }
    proof {
        lemma_debts_stay_covered(*contract, pool.acc_reward_per_share);
    }
    contract.reward_pool = pool;
    contract.config.deadline = height;
    proof {
        let pre = *old(contract);
        if pre.supply_matches() && pre.debts_covered() {
            lemma_books_balance(pre, env.block_height, 0, 0, 0, 0, *contract);
        }
    }
    success(
        Vec::new(),
        HandleData::Handle(HandleAnswer::SetDeadline { status: ResponseStatus::Success }),
    )
}

/// Stores the digest of `key` as the sender's viewing key.
pub fn set_viewing_key(contract: &mut LpStaking, env: &Env, key: String) -> (res: Result<Response, ContractError>)
    ensures
        set_viewing_key_post(*old(contract), *env, key, *final(contract), res),
        keeps_invariants(*old(contract), *final(contract)),
{
    let key = ViewingKey(key);
    let digest = key.to_hashed();
    contract.viewing_keys.insert(env.sender.clone(), digest);
    success(
        Vec::new(),
        HandleData::Handle(HandleAnswer::SetViewingKey { status: ResponseStatus::Success }),
    )
}

/// Derives a viewing key for the sender, stores its digest and hands the
/// key back.
pub fn create_viewing_key(contract: &mut LpStaking, env: &Env, entropy: String) -> (res: Result<
    Response,
    ContractError,
>)
    ensures
        create_viewing_key_post(*old(contract), *env, entropy, *final(contract), res),
        keeps_invariants(*old(contract), *final(contract)),
{
    let key = ViewingKey::new(env, contract.config.prng_seed.as_slice(), entropy.as_str());
    let digest = key.to_hashed();
    contract.viewing_keys.insert(env.sender.clone(), digest);
    Ok(
        HandleResponse {
            messages: Vec::new(),
            log: Vec::new(),
            data: Some(HandleData::Handle(HandleAnswer::CreateViewingKey { key })),
        },
    )
}

/// Carries out `msg`. `reward_balance` is what the reward token answered
/// when the host asked it for the pool's balance; only the sweep of the
/// pool reads it.
pub fn handle(contract: &mut LpStaking, env: &Env, msg: LPStakingHandleMsg, reward_balance: &BalanceQuery) -> (res:
    Result<Response, ContractError>)
    ensures
        handle_post(*old(contract), *env, msg, *reward_balance, *final(contract), res),
        keeps_invariants(*old(contract), *final(contract)),
        res is Ok && !(msg is EmergencyRedeem) ==> conserves(
            *old(contract),
            *final(contract),
            rewards_paid(*old(contract), *env, msg),
            rewards_funded(msg),
        ),
        msg is EmergencyRedeem && old(contract).debts_covered() ==> held(*final(contract)) <= held(
            *old(contract),
        ),
{
    if contract.config.is_stopped {
        return match msg {
            LPStakingHandleMsg::EmergencyRedeem => emergency_redeem(contract, env),
            LPStakingHandleMsg::ResumeContract => resume_contract(contract, env),
            _ => Err(ContractError::ContractStopped),
        };
    }
    match msg {
        LPStakingHandleMsg::Redeem { amount } => redeem(contract, env, amount),
        LPStakingHandleMsg::Receive { sender: _, from, amount, msg } => match msg {
            ReceiveMsg::Deposit => deposit(contract, env, from, amount),
            ReceiveMsg::DepositRewards => deposit_rewards(contract, env, amount),
        },
        LPStakingHandleMsg::CreateViewingKey { entropy } => create_viewing_key(contract, env, entropy),
        LPStakingHandleMsg::SetViewingKey { key } => set_viewing_key(contract, env, key),
        LPStakingHandleMsg::ClaimRewardPool { to } => claim_reward_pool(
            contract,
            env,
            to,
            reward_balance,
        ),
        LPStakingHandleMsg::StopContract => stop_contract(contract, env),
        LPStakingHandleMsg::ChangeAdmin { address } => change_admin(contract, env, address),
        LPStakingHandleMsg::SetDeadline { block } => set_deadline(contract, env, block),
        LPStakingHandleMsg::EmergencyRedeem => Err(ContractError::UnavailableAction),
        LPStakingHandleMsg::ResumeContract => Err(ContractError::UnavailableAction),
    }
}

/// What the pool would owe the staker at `address` if it were settled at
/// block `height`.
pub open spec fn rewards_answer(
    pool: LpStaking,
    address: Seq<char>,
    height: u64,
    res: Result<QueryAnswer, ContractError>,
) -> bool {
    let totals = pool.reward_pool.updated(height, pool.config.deadline);
    let acc = totals.acc_reward_per_share;
    let user = pool.user(address);
    let fits = {
        &&& pool.reward_pool.update_fits(height, pool.config.deadline)
        &&& user.locked * acc <= u128::MAX
        &&& user.pending(acc) >= 0
    };
    if fits {
        res == Ok::<QueryAnswer, ContractError>(
            QueryAnswer::Rewards { rewards: user.pending(acc) as u128 },
        )
    } else {
        res == Err::<QueryAnswer, ContractError>(ContractError::Arithmetic)
    }
}

/// What the staker at `address` has locked, in the units of the staked
/// token.
pub open spec fn deposit_answer(
    pool: LpStaking,
    address: Seq<char>,
    res: Result<QueryAnswer, ContractError>,
) -> bool {
    let locked = pool.user(address).locked;
    if locked * INC_TOKEN_SCALE <= u128::MAX {
        res == Ok::<QueryAnswer, ContractError>(
            QueryAnswer::Deposit { deposit: (locked * INC_TOKEN_SCALE) as u128 },
        )
    } else {
        res == Err::<QueryAnswer, ContractError>(ContractError::Arithmetic)
    }
}

/// The fixed description under which wallets list the pool.
pub open spec fn token_info_answer(res: Result<QueryAnswer, ContractError>) -> bool {
    &&& res is Ok
    &&& res->Ok_0 is TokenInfo
    &&& res->Ok_0->name@ == "ETH Bridge Rewards"@
    &&& res->Ok_0->symbol@ == "ETH-RWRDS"@
    &&& res->Ok_0->decimals == 1
    &&& res->Ok_0->total_supply is None
}

/// The answer that tells a caller nothing: neither whether the address has
/// a key nor whether the key presented was close.
pub open spec fn refusal(res: Result<QueryAnswer, ContractError>) -> bool {
    &&& res is Ok
    &&& res->Ok_0 is QueryError
    &&& res->Ok_0->msg@ == "Wrong viewing key for this address or viewing key not set"@
}

/// Whether `key` is the viewing key on record for `address`.
pub open spec fn key_opens(pool: LpStaking, address: Seq<char>, key: Seq<char>) -> bool {
    pool.viewing_keys@.contains_key(address) && pool.viewing_keys@[address]@ == hashed_key(key)
}

/// What an authenticated question is answered with: the data when the key
/// presented is the one on record for the address, and the refusal when the
/// key is wrong or the address has none.
pub open spec fn authenticated_answer(
    pool: LpStaking,
    msg: QueryMsg,
    res: Result<QueryAnswer, ContractError>,
) -> bool {
    match msg {
        QueryMsg::Rewards { address, height, key } => if key_opens(pool, address@, key@) {
            rewards_answer(pool, address@, height, res)
        } else {
            refusal(res)
        },
        QueryMsg::Deposit { address, key } => if key_opens(pool, address@, key@) {
            deposit_answer(pool, address@, res)
        } else {
            refusal(res)
        },
        _ => true,
    }
}

/// What a question is answered with.
pub open spec fn query_answer(
    pool: LpStaking,
    msg: QueryMsg,
    res: Result<QueryAnswer, ContractError>,
) -> bool {
    match msg {
        QueryMsg::ClaimBlock => res == Ok::<QueryAnswer, ContractError>(
            QueryAnswer::ClaimBlock { height: pool.config.pool_claim_block },
        ),
        QueryMsg::ContractStatus => res == Ok::<QueryAnswer, ContractError>(
            QueryAnswer::ContractStatus { is_stopped: pool.config.is_stopped },
        ),
        QueryMsg::RewardToken => res == Ok::<QueryAnswer, ContractError>(
            QueryAnswer::RewardToken { token: pool.config.reward_token },
        ),
        QueryMsg::IncentivizedToken => res == Ok::<QueryAnswer, ContractError>(
            QueryAnswer::IncentivizedToken { token: pool.config.inc_token },
        ),
        QueryMsg::EndHeight => res == Ok::<QueryAnswer, ContractError>(
            QueryAnswer::EndHeight { height: pool.config.deadline },
        ),
        QueryMsg::RewardPoolBalance => res == Ok::<QueryAnswer, ContractError>(
            QueryAnswer::RewardPoolBalance { balance: pool.reward_pool.pending_rewards },
        ),
        QueryMsg::TokenInfo => token_info_answer(res),
        _ => authenticated_answer(pool, msg, res),
    }
}

fn zero_digest() -> (digest: Vec<u8>)
    ensures
        digest@.len() == VIEWING_KEY_SIZE,
{
    let mut digest: Vec<u8> = Vec::new();
    while digest.len() < VIEWING_KEY_SIZE
        invariant
            digest@.len() <= VIEWING_KEY_SIZE,
        decreases VIEWING_KEY_SIZE - digest@.len(),
    {
        digest.push(0u8);
    }
    digest
}

/// What the pool would owe `address` if it were settled at `height`. The
/// height is taken on trust; the pool is not changed.
pub fn query_pending_rewards(contract: &LpStaking, address: &String, height: u64) -> (res: Result<
    QueryAnswer,
    ContractError,
>)
    ensures
        rewards_answer(*contract, address@, height, res),
{
    let mut pool = contract.reward_pool;
    match pool.update_rewards(height, contract.config.deadline) {
        Err(error) => {
            return Err(error);
        },
        Ok(()) => {},
    }
    let user = contract.load_user(address);
    match pending_reward(&user, pool.acc_reward_per_share) {
        Some(rewards) => Ok(QueryAnswer::Rewards { rewards }),
        None => Err(ContractError::Arithmetic),
    }
}

/// What `address` has locked, in the units of the staked token.
pub fn query_deposit(contract: &LpStaking, address: &String) -> (res: Result<QueryAnswer, ContractError>)
    ensures
        deposit_answer(*contract, address@, res),
{
    let user = contract.load_user(address);
    match user.locked.checked_mul(INC_TOKEN_SCALE) {
        Some(deposit) => Ok(QueryAnswer::Deposit { deposit }),
        None => Err(ContractError::Arithmetic),
    }
}

/// The first block at which the pool may be swept.
pub fn query_claim_block(contract: &LpStaking) -> (res: Result<QueryAnswer, ContractError>)
    ensures
        query_answer(*contract, QueryMsg::ClaimBlock, res),
{
    Ok(QueryAnswer::ClaimBlock { height: contract.config.pool_claim_block })
}

/// Whether the pool is stopped.
pub fn query_contract_status(contract: &LpStaking) -> (res: Result<QueryAnswer, ContractError>)
    ensures
        query_answer(*contract, QueryMsg::ContractStatus, res),
{
    Ok(QueryAnswer::ContractStatus { is_stopped: contract.config.is_stopped })
}

/// The token that rewards are paid in.
pub fn query_reward_token(contract: &LpStaking) -> (res: Result<QueryAnswer, ContractError>)
    ensures
        query_answer(*contract, QueryMsg::RewardToken, res),
{
    Ok(QueryAnswer::RewardToken { token: contract.config.reward_token.clone() })
}

/// The token that stakers lock.
pub fn query_incentivized_token(contract: &LpStaking) -> (res: Result<QueryAnswer, ContractError>)
    ensures
        query_answer(*contract, QueryMsg::IncentivizedToken, res),
{
    Ok(QueryAnswer::IncentivizedToken { token: contract.config.inc_token.clone() })
}

/// The block at which vesting ends.
pub fn query_end_height(contract: &LpStaking) -> (res: Result<QueryAnswer, ContractError>)
    ensures
        query_answer(*contract, QueryMsg::EndHeight, res),
{
    Ok(QueryAnswer::EndHeight { height: contract.config.deadline })
}

/// The rewards that have not vested yet.
pub fn query_reward_pool_balance(contract: &LpStaking) -> (res: Result<QueryAnswer, ContractError>)
    ensures
        query_answer(*contract, QueryMsg::RewardPoolBalance, res),
{
    Ok(QueryAnswer::RewardPoolBalance { balance: contract.reward_pool.pending_rewards })
}

/// Answers a question that needs a viewing key. When the address has no
/// key on record, the key presented is still hashed and compared, against
/// a digest of zeros, so that the work done is the same.
pub fn authenticated_queries(contract: &LpStaking, msg: QueryMsg) -> (res: Result<QueryAnswer, ContractError>)
    requires
        msg.is_authenticated(),
    ensures
        authenticated_answer(*contract, msg, res),
{
    let (address, key) = msg.get_validation_params();
    let mut opens = false;
    match contract.viewing_keys.get(address) {
        None => {
            let decoy = zero_digest();
            let _ = key.check_viewing_key(decoy.as_slice());
        },
        Some(expected) => {
            opens = key.check_viewing_key(expected.as_slice());
        },
    }
    if opens {
        return match &msg {
            QueryMsg::Rewards { address, height, .. } => query_pending_rewards(
                contract,
                address,
                *height,
            ),
            QueryMsg::Deposit { address, .. } => query_deposit(contract, address),
            _ => Err(ContractError::UnavailableAction),
        };
    }
    Ok(
        QueryAnswer::QueryError {
            msg: "Wrong viewing key for this address or viewing key not set".to_owned(),
        },
    )
}

/// Answers a question.
pub fn query(contract: &LpStaking, msg: QueryMsg) -> (res: Result<QueryAnswer, ContractError>)
    ensures
        query_answer(*contract, msg, res),
{
    match msg {
        QueryMsg::ClaimBlock => query_claim_block(contract),
        QueryMsg::ContractStatus => query_contract_status(contract),
        QueryMsg::RewardToken => query_reward_token(contract),
        QueryMsg::IncentivizedToken => query_incentivized_token(contract),
        QueryMsg::EndHeight => query_end_height(contract),
        QueryMsg::RewardPoolBalance => query_reward_pool_balance(contract),
        QueryMsg::TokenInfo => query_token_info(),
        _ => authenticated_queries(contract, msg),
    }
}

/// The fixed description under which wallets list the pool.
pub fn query_token_info() -> (res: Result<QueryAnswer, ContractError>)
    ensures
        token_info_answer(res),
{
    Ok(
        QueryAnswer::TokenInfo {
            name: "ETH Bridge Rewards".to_owned(),
            symbol: "ETH-RWRDS".to_owned(),
            decimals: 1,
            total_supply: None,
        },
    )
}

} // verus!
