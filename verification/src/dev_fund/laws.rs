//! What holds of a development fund whatever it is asked to do.

use vstd::prelude::*;
use crate::dev_fund::contract::handle_post;
use crate::dev_fund::msg::{HandleMsg, Response};
use crate::dev_fund::state::DevFund;
use crate::error::{ContractError, ErrorKind};
use crate::types::{BalanceQuery, Env};

verus! {

/// Whether `msg` is one of the messages that only the admin may send.
pub open spec fn is_admin_only(msg: HandleMsg) -> bool {
    msg is ChangeAdmin || msg is ChangeBeneficiary || msg is RefreshBalance
}

/// A message reserved for the admin, sent by anyone else, fails as
/// unauthorized and changes nothing.
pub proof fn lemma_admin_gate(
    pre: DevFund,
    env: Env,
    msg: HandleMsg,
    token_balance: BalanceQuery,
    post: DevFund,
    res: Result<Response, ContractError>,
)
    requires
        handle_post(pre, env, msg, token_balance, post, res),
        is_admin_only(msg),
        env.sender@ != pre.config.admin@,
    ensures
        post == pre,
        res == Err::<Response, ContractError>(ContractError::NotAdmin { sender: env.sender }),
        res->Err_0.spec_kind() == ErrorKind::Unauthorized,
{
}

/// Only the beneficiary can ask for a payout, and only the allocator and
/// the admin can report an allocation: from anyone else both messages fail
/// as unauthorized and change nothing.
pub proof fn lemma_payout_gate(
    pre: DevFund,
    env: Env,
    msg: HandleMsg,
    token_balance: BalanceQuery,
    post: DevFund,
    res: Result<Response, ContractError>,
)
    requires
        handle_post(pre, env, msg, token_balance, post, res),
        (msg is Redeem && env.sender@ != pre.config.beneficiary@) || (msg is NotifyAllocation
            && env.sender@ != pre.config.master.address@ && env.sender@ != pre.config.admin@),
    ensures
        post == pre,
        res == Err::<Response, ContractError>(ContractError::Unauthorized),
        res->Err_0.spec_kind() == ErrorKind::Unauthorized,
{
}

/// A reported allocation that is paid out at once leaves in the fund what
/// was there before plus the allocation less the payout: nothing is lost
/// and nothing is made.
pub proof fn lemma_fund_conserves(
    pre: DevFund,
    env: Env,
    amount: u128,
    to: String,
    wanted: u128,
    post: DevFund,
    res: Result<Response, ContractError>,
)
    requires
        crate::dev_fund::contract::notify_allocation_post(
            pre,
            env,
            amount,
            Some(crate::types::HookMsg::Redeem { to, amount: Some(wanted) }),
            post,
            res,
        ),
        res is Ok,
    ensures
        post.accumulated_rewards + wanted == pre.accumulated_rewards + amount,
{
}

} // verus!
