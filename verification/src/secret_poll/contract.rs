//! The operations of a poll.

use vstd::prelude::*;
use crate::error::ContractError;
use crate::secret_poll::msg::{InitMsg, Response};
use crate::secret_poll::state::{ChoiceIdMap, MAX_CHOICES, SecretPoll, Vote};
use crate::store::Store;
use crate::types::{
    BalanceQuery,
    Env,
    HandleResponse,
    InitResponse,
    LogAttribute,
    Message,
    ResponseStatus,
    log,
    log_entries,
};

verus! {

/// What `vote` does: the sender's voting power is added to the tally of the
/// choice, and the vote is put on record. The poll's choice must exist, the
/// staking pool must have answered, and the tally must fit in 128 bits;
/// otherwise the poll is left as it was.
pub open spec fn vote_post(
    pre: SecretPoll,
    env: Env,
    choice: u8,
    voting_power: BalanceQuery,
    post: SecretPoll,
    res: Result<Response, ContractError>,
) -> bool {
    if !pre.has_choice(choice) {
        post == pre && res == Err::<Response, ContractError>(
            ContractError::UnknownChoice { choice },
        )
    } else {
        match voting_power {
            BalanceQuery::Failed(reason) => post == pre && res == Err::<Response, ContractError>(
                ContractError::BalanceQueryFailed { reason },
            ),
            BalanceQuery::Balance(power) => if pre.tally@[choice - 1] + power > u128::MAX {
                post == pre && res == Err::<Response, ContractError>(ContractError::Arithmetic)
            } else {
                &&& post.owner == pre.owner
                &&& post.metadata == pre.metadata
                &&& post.config == pre.config
                &&& post.staking_pool == pre.staking_pool
                &&& post.choices == pre.choices
                &&& post.tally@ == pre.tally@.update(
                    choice - 1,
                    (pre.tally@[choice - 1] + power) as u128,
                )
                &&& post.votes@ == pre.votes@.insert(
                    env.sender@,
                    Vote { choice, voting_power: power },
                )
                &&& res is Ok
                &&& res->Ok_0.messages@ == Seq::<Message>::empty()
                &&& log_entries(res->Ok_0.log@) == seq![("voted"@, env.sender@)]
                &&& res->Ok_0.data == Some(ResponseStatus::Success)
            },
        }
    }
}

/// Creates a poll: the sender becomes its owner, the choices are numbered
/// from one in their order, and nothing has been voted. More choices than
/// can be numbered are refused.
pub fn init(env: &Env, msg: InitMsg) -> (res: Result<(SecretPoll, InitResponse), ContractError>)
    ensures
        msg.choices@.len() > MAX_CHOICES ==> res == Err::<(SecretPoll, InitResponse), ContractError>(
            ContractError::TooManyChoices,
        ),
        msg.choices@.len() <= MAX_CHOICES ==> {
            &&& res is Ok
            &&& res->Ok_0.0.is_numbered()
            &&& res->Ok_0.0.owner == env.sender
            &&& res->Ok_0.0.metadata == msg.metadata
            &&& res->Ok_0.0.config == msg.config
            &&& res->Ok_0.0.staking_pool == msg.staking_pool
            &&& res->Ok_0.0.choices@.len() == msg.choices@.len()
            &&& forall|i: int|
                0 <= i < msg.choices@.len() ==> (#[trigger] res->Ok_0.0.choices@[i]).1
                    == msg.choices@[i]
            &&& forall|i: int| 0 <= i < msg.choices@.len() ==> #[trigger] res->Ok_0.0.tally@[i] == 0
            &&& res->Ok_0.0.votes@ == Map::<Seq<char>, Vote>::empty()
            &&& res->Ok_0.1.messages@ == Seq::<Message>::empty()
            &&& res->Ok_0.1.log@ == Seq::<LogAttribute>::empty()
        },
{
    if msg.choices.len() > MAX_CHOICES {
        return Err(ContractError::TooManyChoices);
    }
    let mut choices: ChoiceIdMap = Vec::new();
    let mut tally: Vec<u128> = Vec::new();
    let mut i: usize = 0;
    while i < msg.choices.len()
        invariant
            i <= msg.choices@.len() <= MAX_CHOICES,
            choices@.len() == i,
            tally@.len() == i,
            forall|j: int| 0 <= j < i ==> (#[trigger] choices@[j]).0 == j + 1,
            forall|j: int| 0 <= j < i ==> (#[trigger] choices@[j]).1 == msg.choices@[j],
            forall|j: int| 0 <= j < i ==> #[trigger] tally@[j] == 0,
        decreases msg.choices@.len() - i,
    {
        choices.push(((i + 1) as u8, msg.choices[i].clone()));
        tally.push(0u128);
        i += 1;
    }
    let poll = SecretPoll {
        owner: env.sender.clone(),
        metadata: msg.metadata,
        config: msg.config,
        staking_pool: msg.staking_pool,
        choices,
        tally,
        votes: Store::new(),
    };
    Ok((poll, InitResponse { messages: Vec::new(), log: Vec::new() }))
}

/// Casts the sender's vote for `choice`. `voting_power` is what the
/// staking pool answered when the host asked it for the sender's balance.
pub fn vote(contract: &mut SecretPoll, env: &Env, choice: u8, voting_power: &BalanceQuery) -> (res: Result<
    Response,
    ContractError,
>)
    ensures
        vote_post(*old(contract), *env, choice, *voting_power, *final(contract), res),
        old(contract).is_numbered() ==> final(contract).is_numbered(),
{
    if choice == 0 || choice as usize > contract.choices.len() || choice as usize
        > contract.tally.len() {
        return Err(ContractError::UnknownChoice { choice });
    }
    let power = match voting_power {
        BalanceQuery::Failed(reason) => {
            return Err(ContractError::BalanceQueryFailed { reason: reason.clone() });
        },
        BalanceQuery::Balance(power) => *power,
    };
    let slot: usize = (choice - 1) as usize;
    let counted = match contract.tally[slot].checked_add(power) {
        Some(counted) => counted,
        None => {
            return Err(ContractError::Arithmetic);
        },
    };
    contract.tally[slot] = counted;
    store_vote(contract, env.sender.clone(), choice, power);
    let mut logs: Vec<LogAttribute> = Vec::new();
    logs.push(log("voted", &env.sender));
    assert(log_entries(logs@) =~= seq![("voted"@, env.sender@)]);
    Ok(HandleResponse { messages: Vec::new(), log: logs, data: Some(ResponseStatus::Success) })
}

/// Puts the vote of `voter` on record, in place of an earlier one.
pub fn store_vote(contract: &mut SecretPoll, voter: String, choice: u8, voting_power: u128)
    ensures
        final(contract).votes@ == old(contract).votes@.insert(voter@, Vote { choice, voting_power }),
        final(contract).owner == old(contract).owner,
        final(contract).metadata == old(contract).metadata,
        final(contract).config == old(contract).config,
        final(contract).staking_pool == old(contract).staking_pool,
        final(contract).choices == old(contract).choices,
        final(contract).tally == old(contract).tally,
{
    contract.votes.insert(voter, Vote { choice, voting_power });
}

} // verus!
