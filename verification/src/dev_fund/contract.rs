//! The operations of a development fund.
//!
//! The fund never pays out on its own. The beneficiary asks; the fund asks
//! the allocator to settle it; and the allocator's callback, which carries
//! the beneficiary's request back as a hook, pays out of what has then
//! accumulated. Every operation either succeeds or leaves the fund as it
//! was.

use vstd::prelude::*;
use crate::constants::RESPONSE_BLOCK_SIZE;
use crate::dev_fund::msg::{HandleAnswer, HandleMsg, InitMsg, QueryAnswer, QueryMsg, Response};
use crate::dev_fund::state::{Config, DevFund};
use crate::error::{ContractError, enforce_admin};
use crate::types::{
    BalanceQuery,
    Env,
    HandleResponse,
    HookMsg,
    InitResponse,
    LogAttribute,
    Message,
    ResponseStatus,
};

verus! {

/// A failure with `error` that left the fund as it was.
pub open spec fn fails(
    pre: DevFund,
    post: DevFund,
    res: Result<Response, ContractError>,
    error: ContractError,
) -> bool {
    post == pre && res == Err::<Response, ContractError>(error)
}

/// A successful response with the given messages and answer and an empty
/// log.
pub open spec fn responds(
    res: Result<Response, ContractError>,
    messages: Seq<Message>,
    data: Option<HandleAnswer>,
) -> bool {
    &&& res is Ok
    &&& res->Ok_0.messages@ == messages
    &&& res->Ok_0.log@ == Seq::<LogAttribute>::empty()
    &&& res->Ok_0.data == data
}

/// What `notify_allocation` does: only the allocator and the admin may
/// report an allocation. `amount` is added to what has accumulated; a hook
/// that asks for a payout is then served out of the sum.
pub open spec fn notify_allocation_post(
    pre: DevFund,
    env: Env,
    amount: u128,
    hook: Option<HookMsg>,
    post: DevFund,
    res: Result<Response, ContractError>,
) -> bool {
    let balance = pre.accumulated_rewards + amount;
    let done = Some(HandleAnswer::Redeem { status: ResponseStatus::Success });
    if env.sender@ != pre.config.master.address@ && env.sender@ != pre.config.admin@ {
        fails(pre, post, res, ContractError::Unauthorized)
    } else if balance > u128::MAX {
        fails(pre, post, res, ContractError::Arithmetic)
    } else {
        match hook {
            None => {
                &&& post == DevFund { accumulated_rewards: balance as u128, ..pre }
                &&& responds(res, Seq::empty(), done)
            },
            Some(HookMsg::Redeem { to, amount: wanted }) => {
                let paid = match wanted {
                    Some(paid) => paid as int,
                    None => balance,
                };
                if paid > balance {
                    fails(
                        pre,
                        post,
                        res,
                        ContractError::InsufficientFunds {
                            balance: balance as u128,
                            required: paid as u128,
                        },
                    )
                } else {
                    &&& post == DevFund { accumulated_rewards: (balance - paid) as u128, ..pre }
                    &&& responds(
                        res,
                        seq![
                            Message::Transfer {
                                token: pre.config.reward_token,
                                recipient: to,
                                amount: paid as u128,
                                block_size: RESPONSE_BLOCK_SIZE,
                            },
                        ],
                        done,
                    )
                }
            },
        }
    }
}

/// What `redeem` does: the beneficiary's request is sent to the allocator
/// as the hook of a settlement. The fund itself does not change.
pub open spec fn redeem_post(
    pre: DevFund,
    env: Env,
    amount: Option<u128>,
    to: Option<String>,
    post: DevFund,
    res: Result<Response, ContractError>,
) -> bool {
    if env.sender@ != pre.config.beneficiary@ {
        fails(pre, post, res, ContractError::Unauthorized)
    } else {
        &&& post == pre
        &&& responds(
            res,
            seq![
                Message::UpdateAllocation {
                    master: pre.config.master,
                    spy_addr: env.contract_address,
                    spy_hash: env.contract_code_hash,
                    hook: Some(
                        HookMsg::Redeem {
                            to: match to {
                                Some(to) => to,
                                None => env.sender,
                            },
                            amount,
                        },
                    ),
                },
            ],
            None,
        )
    }
}

/// What `change_admin` does: the admin hands the fund over to `address`.
pub open spec fn change_admin_post(
    pre: DevFund,
    env: Env,
    address: String,
    post: DevFund,
    res: Result<Response, ContractError>,
) -> bool {
    if env.sender@ != pre.config.admin@ {
        fails(pre, post, res, ContractError::NotAdmin { sender: env.sender })
    } else {
        &&& post == DevFund { config: Config { admin: address, ..pre.config }, ..pre }
        &&& responds(
            res,
            Seq::empty(),
            Some(HandleAnswer::ChangeAdmin { status: ResponseStatus::Success }),
        )
    }
}

/// What `change_beneficiary` does: the admin names another beneficiary.
pub open spec fn change_beneficiary_post(
    pre: DevFund,
    env: Env,
    address: String,
    post: DevFund,
    res: Result<Response, ContractError>,
) -> bool {
    if env.sender@ != pre.config.admin@ {
        fails(pre, post, res, ContractError::NotAdmin { sender: env.sender })
    } else {
        &&& post == DevFund { config: Config { beneficiary: address, ..pre.config }, ..pre }
        &&& responds(
            res,
            Seq::empty(),
            Some(HandleAnswer::ChangeBeneficiary { status: ResponseStatus::Success }),
        )
    }
}

/// What `refresh_balance` does: the admin overwrites the accumulated amount
/// with the balance that the token reports for the fund.
pub open spec fn refresh_balance_post(
    pre: DevFund,
    env: Env,
    balance: BalanceQuery,
    post: DevFund,
    res: Result<Response, ContractError>,
) -> bool {
    if env.sender@ != pre.config.admin@ {
        fails(pre, post, res, ContractError::NotAdmin { sender: env.sender })
    } else {
        match balance {
            BalanceQuery::Failed(reason) => fails(
                pre,
                post,
                res,
                ContractError::BalanceQueryFailed { reason },
            ),
            BalanceQuery::Balance(amount) => {
                &&& post == DevFund { accumulated_rewards: amount, ..pre }
                &&& responds(
                    res,
                    Seq::empty(),
                    Some(HandleAnswer::RefreshBalance { status: ResponseStatus::Success }),
                )
            },
        }
    }
}

/// What `handle` does: what the operation that the message names does.
pub open spec fn handle_post(
    pre: DevFund,
    env: Env,
    msg: HandleMsg,
    token_balance: BalanceQuery,
    post: DevFund,
    res: Result<Response, ContractError>,
) -> bool {
    match msg {
        HandleMsg::Redeem { amount, to } => redeem_post(pre, env, amount, to, post, res),
        HandleMsg::ChangeAdmin { address } => change_admin_post(pre, env, address, post, res),
        HandleMsg::ChangeBeneficiary { address } => change_beneficiary_post(
            pre,
            env,
            address,
            post,
            res,
        ),
        HandleMsg::NotifyAllocation { amount, hook } => notify_allocation_post(
            pre,
            env,
            amount,
            hook,
            post,
            res,
        ),
        HandleMsg::RefreshBalance => refresh_balance_post(pre, env, token_balance, post, res),
    }
}

fn success(messages: Vec<Message>, data: Option<HandleAnswer>) -> (res: Result<
    Response,
    ContractError,
>)
    ensures
        responds(res, messages@, data),
{
    Ok(HandleResponse { messages, log: Vec::new(), data })
}

/// Creates a fund: the sender becomes its admin and, unless another is
/// named, its beneficiary. Nothing has accumulated. The fund sets its
/// viewing key at the token.
pub fn init(env: &Env, msg: InitMsg) -> (created: (DevFund, InitResponse))
    ensures
        created.0 == (DevFund {
            config: Config {
                admin: env.sender,
                beneficiary: match msg.beneficiary {
                    Some(beneficiary) => beneficiary,
                    None => env.sender,
                },
                reward_token: msg.sefi,
                master: msg.master,
                viewing_key: msg.viewing_key,
                own_addr: env.contract_address,
            },
            accumulated_rewards: 0,
        }),
        created.1.log@ == Seq::<LogAttribute>::empty(),
        created.1.messages@ == seq![
            Message::SetViewingKey {
                token: msg.sefi,
                key: msg.viewing_key,
                block_size: RESPONSE_BLOCK_SIZE,
            },
        ],
{
    let mut messages: Vec<Message> = Vec::new();
    messages.push(
        Message::SetViewingKey {
            token: msg.sefi.clone(),
            key: msg.viewing_key.clone(),
            block_size: RESPONSE_BLOCK_SIZE,
        },
    );
    let beneficiary = match msg.beneficiary {
        Some(beneficiary) => beneficiary,
        None => env.sender.clone(),
    };
    let fund = DevFund {
        config: Config {
            admin: env.sender.clone(),
            beneficiary,
            reward_token: msg.sefi,
            master: msg.master,
            viewing_key: msg.viewing_key,
            own_addr: env.contract_address.clone(),
        },
        accumulated_rewards: 0,
    };
    (fund, InitResponse { messages, log: Vec::new() })
}

/// Takes note of an allocation and serves the payout that its hook asks
/// for.
pub fn notify_allocation(contract: &mut DevFund, env: &Env, amount: u128, hook: Option<HookMsg>) -> (res:
    Result<Response, ContractError>)
    ensures
        notify_allocation_post(*old(contract), *env, amount, hook, *final(contract), res),
{
    if env.sender != contract.config.master.address && env.sender != contract.config.admin {
        return Err(ContractError::Unauthorized);
    }
    let mut balance = match contract.accumulated_rewards.checked_add(amount) {
        Some(balance) => balance,
        None => {
            return Err(ContractError::Arithmetic);
        },
    };
    let mut messages: Vec<Message> = Vec::new();
    match hook {
        Some(HookMsg::Redeem { to, amount }) => {
            let paid = match amount {
                Some(paid) => paid,
                None => balance,
            };
            if paid > balance {
                return Err(ContractError::InsufficientFunds { balance, required: paid });
            }
            balance = balance - paid;
            messages.push(
                Message::Transfer {
                    token: contract.config.reward_token.clone(),
                    recipient: to,
                    amount: paid,
                    block_size: RESPONSE_BLOCK_SIZE,
                },
            );
        },
        None => {},
    }
    contract.accumulated_rewards = balance;
    success(messages, Some(HandleAnswer::Redeem { status: ResponseStatus::Success }))
}

/// Asks the allocator to settle the fund and to call it back with the
/// beneficiary's request.
pub fn redeem(contract: &DevFund, env: &Env, amount: Option<u128>, to: Option<String>) -> (res: Result<
    Response,
    ContractError,
>)
    ensures
        redeem_post(*contract, *env, amount, to, *contract, res),
{
    if env.sender != contract.config.beneficiary {
        return Err(ContractError::Unauthorized);
    }
    let recipient = match to {
        Some(to) => to,
        None => env.sender.clone(),
    };
    update_allocation(contract, env, Some(HookMsg::Redeem { to: recipient, amount }))
}

/// The request to the allocator to settle this fund and call it back
/// with `hook`.
pub fn update_allocation(contract: &DevFund, env: &Env, hook: Option<HookMsg>) -> (res: Result<
    Response,
    ContractError,
>)
    ensures
        responds(
            res,
            seq![
                Message::UpdateAllocation {
                    master: contract.config.master,
                    spy_addr: env.contract_address,
                    spy_hash: env.contract_code_hash,
                    hook,
                },
            ],
            None,
        ),
{
    let mut messages: Vec<Message> = Vec::new();
    messages.push(
        Message::UpdateAllocation {
            master: contract.config.master.clone(),
            spy_addr: env.contract_address.clone(),
            spy_hash: env.contract_code_hash.clone(),
            hook,
        },
    );
    success(messages, None)
}

/// Hands the fund over to a new admin.
pub fn change_admin(contract: &mut DevFund, env: &Env, address: String) -> (res: Result<Response, ContractError>)
    ensures
        change_admin_post(*old(contract), *env, address, *final(contract), res),
{
    match enforce_admin(&contract.config.admin, &env.sender) {
        Err(error) => {
            return Err(error);
        },
        Ok(()) => {},
    }
    contract.config.admin = address;
    success(Vec::new(), Some(HandleAnswer::ChangeAdmin { status: ResponseStatus::Success }))
}

/// Names another beneficiary.
pub fn change_beneficiary(contract: &mut DevFund, env: &Env, address: String) -> (res: Result<
    Response,
    ContractError,
>)
    ensures
        change_beneficiary_post(*old(contract), *env, address, *final(contract), res),
{
    match enforce_admin(&contract.config.admin, &env.sender) {
        Err(error) => {
            return Err(error);
        },
        Ok(()) => {},
    }
    contract.config.beneficiary = address;
    success(
        Vec::new(),
        Some(HandleAnswer::ChangeBeneficiary { status: ResponseStatus::Success }),
    )
}

/// Overwrites the accumulated amount with the fund's token balance, for
/// the case that the two have drifted apart. `balance` is what the token
/// answered when the host asked it for the fund's balance.
pub fn refresh_balance(contract: &mut DevFund, env: &Env, balance: &BalanceQuery) -> (res: Result<
    Response,
    ContractError,
>)
    ensures
        refresh_balance_post(*old(contract), *env, *balance, *final(contract), res),
{
    match enforce_admin(&contract.config.admin, &env.sender) {
        Err(error) => {
            return Err(error);
        },
        Ok(()) => {},
    }
    match balance {
        BalanceQuery::Failed(reason) => Err(
            ContractError::BalanceQueryFailed { reason: reason.clone() },
        ),
        BalanceQuery::Balance(amount) => {
            contract.accumulated_rewards = *amount;
            success(
                Vec::new(),
                Some(HandleAnswer::RefreshBalance { status: ResponseStatus::Success }),
            )
        },
    }
}

/// Carries out `msg`. `token_balance` is what the token answered when
/// the host asked it for the fund's balance; only `RefreshBalance` reads
/// it.
pub fn handle(contract: &mut DevFund, env: &Env, msg: HandleMsg, token_balance: &BalanceQuery) -> (res: Result<
    Response,
    ContractError,
>)
    ensures
        handle_post(*old(contract), *env, msg, *token_balance, *final(contract), res),
{
    match msg {
        HandleMsg::Redeem { amount, to } => redeem(contract, env, amount, to),
        HandleMsg::ChangeAdmin { address } => change_admin(contract, env, address),
        HandleMsg::ChangeBeneficiary { address } => change_beneficiary(contract, env, address),
        HandleMsg::NotifyAllocation { amount, hook } => notify_allocation(contract, env, amount, hook),
        HandleMsg::RefreshBalance => refresh_balance(contract, env, token_balance),
    }
}

/// What the fund holds: what has accumulated plus what the allocator
/// would pay it now. `pending` is what the allocator answered when the
/// host asked it for the fund's share.
pub fn query_balance(contract: &DevFund, pending: &BalanceQuery) -> (res: Result<QueryAnswer, ContractError>)
    ensures
        match *pending {
            BalanceQuery::Failed(reason) => res == Err::<QueryAnswer, ContractError>(
                ContractError::BalanceQueryFailed { reason },
            ),
            BalanceQuery::Balance(amount) => if amount + contract.accumulated_rewards <= u128::MAX {
                res == Ok::<QueryAnswer, ContractError>(
                    QueryAnswer::Balance {
                        amount: (amount + contract.accumulated_rewards) as u128,
                    },
                )
            } else {
                res == Err::<QueryAnswer, ContractError>(ContractError::Arithmetic)
            },
        },
{
    match pending {
        BalanceQuery::Failed(reason) => Err(
            ContractError::BalanceQueryFailed { reason: reason.clone() },
        ),
        BalanceQuery::Balance(amount) => match amount.checked_add(contract.accumulated_rewards) {
            Some(amount) => Ok(QueryAnswer::Balance { amount }),
            None => Err(ContractError::Arithmetic),
        },
    }
}

/// The token the fund collects.
pub fn query_sefi(contract: &DevFund) -> (answer: QueryAnswer)
    ensures
        answer == (QueryAnswer::Sefi { sefi: contract.config.reward_token }),
{
    QueryAnswer::Sefi { sefi: contract.config.reward_token.clone() }
}

/// Who the admin is.
pub fn query_admin(contract: &DevFund) -> (answer: QueryAnswer)
    ensures
        answer == (QueryAnswer::Admin { address: contract.config.admin }),
{
    QueryAnswer::Admin { address: contract.config.admin.clone() }
}

/// Who the beneficiary is.
pub fn query_beneficiary(contract: &DevFund) -> (answer: QueryAnswer)
    ensures
        answer == (QueryAnswer::Beneficiary { address: contract.config.beneficiary }),
{
    QueryAnswer::Beneficiary { address: contract.config.beneficiary.clone() }
}

/// Answers a question. `pending` is what the allocator answered when the
/// host asked it for the fund's share; only `Balance` reads it.
pub fn query(contract: &DevFund, msg: QueryMsg, pending: &BalanceQuery) -> (res: Result<
    QueryAnswer,
    ContractError,
>)
    ensures
        match msg {
            QueryMsg::Sefi => res == Ok::<QueryAnswer, ContractError>(
                QueryAnswer::Sefi { sefi: contract.config.reward_token },
            ),
            QueryMsg::Admin => res == Ok::<QueryAnswer, ContractError>(
                QueryAnswer::Admin { address: contract.config.admin },
            ),
            QueryMsg::Beneficiary => res == Ok::<QueryAnswer, ContractError>(
                QueryAnswer::Beneficiary { address: contract.config.beneficiary },
            ),
            QueryMsg::Balance { .. } => match *pending {
                BalanceQuery::Failed(reason) => res == Err::<QueryAnswer, ContractError>(
                    ContractError::BalanceQueryFailed { reason },
                ),
                BalanceQuery::Balance(amount) => if amount + contract.accumulated_rewards
                    <= u128::MAX {
                    res == Ok::<QueryAnswer, ContractError>(
                        QueryAnswer::Balance {
                            amount: (amount + contract.accumulated_rewards) as u128,
                        },
                    )
                } else {
                    res == Err::<QueryAnswer, ContractError>(ContractError::Arithmetic)
                },
            },
        },
{
    match msg {
        QueryMsg::Sefi => Ok(query_sefi(contract)),
        QueryMsg::Admin => Ok(query_admin(contract)),
        QueryMsg::Beneficiary => Ok(query_beneficiary(contract)),
        QueryMsg::Balance { .. } => query_balance(contract, pending),
    }
}

} // verus!
