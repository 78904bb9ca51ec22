//! The operations of a cashback minter.
//!
//! Every operation either succeeds or leaves the minter as it was.

use vstd::prelude::*;
use crate::cashback_minter::msg::{HandleMsg, InitMsg, QueryAnswer, QueryMsg, Response};
use crate::cashback_minter::querier::{PairAnswer, PairLookup};
use crate::cashback_minter::state::{Asset, CashbackMinter, asset_is_scrt, is_scrt};
use crate::error::{ContractError, enforce_admin};
use crate::store::Store;
use crate::types::{
    Env,
    HandleResponse,
    InitResponse,
    LogAttribute,
    Message,
    ResponseStatus,
};

verus! {

/// The block size to which a cashback mint is padded.
pub const MINT_BLOCK_SIZE: usize = 256;

/// A failure with `error` that left the minter as it was.
pub open spec fn fails(
    pre: CashbackMinter,
    post: CashbackMinter,
    res: Result<Response, ContractError>,
    error: ContractError,
) -> bool {
    post == pre && res == Err::<Response, ContractError>(error)
}

/// A successful response with the given messages.
pub open spec fn responds(res: Result<Response, ContractError>, messages: Seq<Message>) -> bool {
    &&& res is Ok
    &&& res->Ok_0.messages@ == messages
    &&& res->Ok_0.log@ == Seq::<LogAttribute>::empty()
    &&& res->Ok_0.data == Some(ResponseStatus::Success)
}

/// The cashback that a swap reported by `sender` earns: the SCRT side of the
/// swap, the side that came in first, if the sender is a supported pair; and
/// nothing otherwise.
pub open spec fn eligibility(
    minter: CashbackMinter,
    sender: Seq<char>,
    asset_in: Asset,
    asset_out: Asset,
) -> u128 {
    if !minter.pairs@.contains_key(sender) {
        0
    } else if asset_is_scrt(minter.sscrt_addr@, asset_in.info) {
        asset_in.amount
    } else if asset_is_scrt(minter.sscrt_addr@, asset_out.info) {
        asset_out.amount
    } else {
        0
    }
}

/// What stands in the way of supporting a pair that answered `answer`, if
/// anything does.
pub open spec fn pair_refusal(sscrt: Seq<char>, answer: PairLookup) -> Option<ContractError> {
    match answer {
        PairLookup::Failed(reason) => Some(ContractError::PairQueryFailed { reason }),
        PairLookup::Info(info) => if asset_is_scrt(sscrt, info.asset_infos[0]) || asset_is_scrt(
            sscrt,
            info.asset_infos[1],
        ) {
            None
        } else {
            Some(ContractError::PairWithoutScrt)
        },
    }
}

/// The first reason not to support one of `pairs`, if there is one.
pub open spec fn first_refusal(sscrt: Seq<char>, pairs: Seq<PairAnswer>) -> Option<ContractError>
    decreases pairs.len(),
{
    if pairs.len() == 0 {
        None
    } else {
        match first_refusal(sscrt, pairs.drop_last()) {
            Some(error) => Some(error),
            None => pair_refusal(sscrt, pairs.last().answer),
        }
    }
}

/// The addresses of `pairs`.
pub open spec fn pair_addresses(pairs: Seq<PairAnswer>) -> Set<Seq<char>> {
    Set::new(|address: Seq<char>| exists|i: int| 0 <= i < pairs.len() && (#[trigger] pairs[i]).pair@ == address)
}

/// The addresses in `pairs`.
pub open spec fn addresses(pairs: Seq<String>) -> Set<Seq<char>> {
    Set::new(|address: Seq<char>| exists|i: int| 0 <= i < pairs.len() && (#[trigger] pairs[i])@ == address)
}

/// What `receive_swap_data` does: the account is minted the cashback that
/// the swap earns, if it earns any.
pub open spec fn receive_swap_data_post(
    pre: CashbackMinter,
    env: Env,
    asset_in: Asset,
    asset_out: Asset,
    account: String,
    post: CashbackMinter,
    res: Result<Response, ContractError>,
) -> bool {
    let amount = eligibility(pre, env.sender@, asset_in, asset_out);
    &&& post == pre
    &&& responds(
        res,
        if amount > 0 {
            seq![
                Message::Mint {
                    token: pre.cashback,
                    recipient: account,
                    amount,
                    block_size: MINT_BLOCK_SIZE,
                },
            ]
        } else {
            Seq::<Message>::empty()
        },
    )
}

/// What `add_pairs` does: the admin adds pairs to those supported. Every
/// pair must have answered, and one of its sides must be SCRT.
pub open spec fn add_pairs_post(
    pre: CashbackMinter,
    env: Env,
    pairs: Seq<PairAnswer>,
    post: CashbackMinter,
    res: Result<Response, ContractError>,
) -> bool {
    if env.sender@ != pre.admin@ {
        fails(pre, post, res, ContractError::NotAdmin { sender: env.sender })
    } else {
        match first_refusal(pre.sscrt_addr@, pairs) {
            Some(error) => fails(pre, post, res, error),
            None => {
                &&& post.sscrt_addr == pre.sscrt_addr
                &&& post.cashback == pre.cashback
                &&& post.admin == pre.admin
                &&& post.pairs@.dom() == pre.pairs@.dom().union(pair_addresses(pairs))
                &&& responds(res, Seq::empty())
            },
        }
    }
}

/// What `remove_pairs` does: the admin takes pairs off those supported.
pub open spec fn remove_pairs_post(
    pre: CashbackMinter,
    env: Env,
    pairs: Seq<String>,
    post: CashbackMinter,
    res: Result<Response, ContractError>,
) -> bool {
    if env.sender@ != pre.admin@ {
        fails(pre, post, res, ContractError::NotAdmin { sender: env.sender })
    } else {
        &&& post.sscrt_addr == pre.sscrt_addr
        &&& post.cashback == pre.cashback
        &&& post.admin == pre.admin
        &&& post.pairs@.dom() == pre.pairs@.dom().difference(addresses(pairs))
        &&& responds(res, Seq::empty())
    }
}

/// What `set_admin` does: the admin hands the minter over to `address`.
pub open spec fn set_admin_post(
    pre: CashbackMinter,
    env: Env,
    address: String,
    post: CashbackMinter,
    res: Result<Response, ContractError>,
) -> bool {
    if env.sender@ != pre.admin@ {
        fails(pre, post, res, ContractError::NotAdmin { sender: env.sender })
    } else {
        &&& post.sscrt_addr == pre.sscrt_addr
        &&& post.cashback == pre.cashback
        &&& post.admin == address
        &&& post.pairs == pre.pairs
        &&& responds(res, Seq::empty())
    }
}

/// What `handle` does: what the operation that the message names does.
pub open spec fn handle_post(
    pre: CashbackMinter,
    env: Env,
    msg: HandleMsg,
    post: CashbackMinter,
    res: Result<Response, ContractError>,
) -> bool {
    match msg {
        HandleMsg::ReceiveSwapData { asset_in, asset_out, account } => receive_swap_data_post(
            pre,
            env,
            asset_in,
            asset_out,
            account,
            post,
            res,
        ),
        HandleMsg::AddPairs { pairs, .. } => add_pairs_post(pre, env, pairs@, post, res),
        HandleMsg::RemovePairs { pairs } => remove_pairs_post(pre, env, pairs@, post, res),
        HandleMsg::SetAdmin { address } => set_admin_post(pre, env, address, post, res),
    }
}

fn success(messages: Vec<Message>) -> (res: Result<Response, ContractError>)
    ensures
        responds(res, messages@),
{
    Ok(HandleResponse { messages, log: Vec::new(), data: Some(ResponseStatus::Success) })
}

/// Adds `pairs` to the pairs that `supported` holds, unless one of them did
/// not answer or has no SCRT side; then `supported` is left as it was.
pub fn set_pairs_to_storage(sscrt: &String, supported: &mut Store<u8>, pairs: &Vec<PairAnswer>) -> (res:
    Result<(), ContractError>)
    ensures
        match first_refusal(sscrt@, pairs@) {
            Some(error) => *final(supported) == *old(supported) && res == Err::<
                (),
                ContractError,
            >(error),
            None => res is Ok && final(supported)@.dom() == old(supported)@.dom().union(
                pair_addresses(pairs@),
            ),
        },
{
    let mut i: usize = 0;
    assert(pairs@.take(0) =~= Seq::<PairAnswer>::empty());
    while i < pairs.len()
        invariant
            i <= pairs@.len(),
            *supported == *old(supported),
            first_refusal(sscrt@, pairs@.take(i as int)) is None,
        decreases pairs@.len() - i,
    {
        proof {
            assert(pairs@.take(i + 1).drop_last() =~= pairs@.take(i as int));
            assert(pairs@.take(i + 1).last() == pairs@[i as int]);
        }
        let refusal = match &pairs[i].answer {
            PairLookup::Failed(reason) => Some(
                ContractError::PairQueryFailed { reason: reason.clone() },
            ),
            PairLookup::Info(info) => {
                let first = is_scrt(sscrt, &info.asset_infos[0]);
                let second = is_scrt(sscrt, &info.asset_infos[1]);
                if first || second {
                    None
                } else {
                    Some(ContractError::PairWithoutScrt)
                }
            },
        };
        match refusal {
            Some(error) => {
                proof {
                    lemma_refusal_stays(sscrt@, pairs@, i + 1);
                }
                return Err(error);
            },
            None => {},
        }
        i += 1;
    }
    assert(pairs@.take(i as int) =~= pairs@);
    let mut j: usize = 0;
    while j < pairs.len()
        invariant
            j <= pairs@.len(),
            supported@.dom() == old(supported)@.dom().union(pair_addresses(pairs@.take(j as int))),
        decreases pairs@.len() - j,
    {
        // The value is irrelevant; it marks the pair as supported
        supported.insert(pairs[j].pair.clone(), 1u8);
        proof {
            let before = pairs@.take(j as int);
            let after = pairs@.take(j + 1);
            assert forall|address: Seq<char>|
                pair_addresses(after).contains(address) == (pair_addresses(before).contains(
                    address,
                ) || address == pairs@[j as int].pair@) by {
                if pair_addresses(before).contains(address) {
                    let i = choose|i: int|
                        0 <= i < before.len() && (#[trigger] before[i]).pair@ == address;
                    assert(after[i].pair@ == address);
                }
                if address == pairs@[j as int].pair@ {
                    assert(after[j as int].pair@ == address);
                }
                if pair_addresses(after).contains(address) {
                    let i = choose|i: int|
                        0 <= i < after.len() && (#[trigger] after[i]).pair@ == address;
                    if i < j {
                        assert(before[i].pair@ == address);
                    }
                }
            }
            assert(supported@.dom() =~= old(supported)@.dom().union(pair_addresses(after)));
        }
        j += 1;
    }
    assert(pairs@.take(j as int) =~= pairs@);
    Ok(())
}

/// A refusal among the first pairs is the refusal of the whole batch.
proof fn lemma_refusal_stays(sscrt: Seq<char>, pairs: Seq<PairAnswer>, n: int)
    requires
        0 <= n <= pairs.len(),
        first_refusal(sscrt, pairs.take(n)) is Some,
    ensures
        first_refusal(sscrt, pairs) == first_refusal(sscrt, pairs.take(n)),
    decreases pairs.len(),
{
    if n == pairs.len() {
        assert(pairs.take(n) =~= pairs);
    } else {
        assert(pairs.drop_last().take(n) =~= pairs.take(n));
        lemma_refusal_stays(sscrt, pairs.drop_last(), n);
    }
}

/// Takes `pairs` off the pairs that `supported` holds.
pub fn remove_pairs_from_storage(supported: &mut Store<u8>, pairs: &Vec<String>)
    ensures
        final(supported)@.dom() == old(supported)@.dom().difference(addresses(pairs@)),
{
    let mut i: usize = 0;
    assert(supported@.dom() =~= old(supported)@.dom().difference(addresses(pairs@.take(0))));
    while i < pairs.len()
        invariant
            i <= pairs@.len(),
            supported@.dom() == old(supported)@.dom().difference(addresses(pairs@.take(i as int))),
        decreases pairs@.len() - i,
    {
        supported.remove(&pairs[i]);
        proof {
            let before = pairs@.take(i as int);
            let after = pairs@.take(i + 1);
            assert forall|address: Seq<char>|
                addresses(after).contains(address) == (addresses(before).contains(address)
                    || address == pairs@[i as int]@) by {
                if addresses(before).contains(address) {
                    let k = choose|k: int| 0 <= k < before.len() && (#[trigger] before[k])@ == address;
                    assert(after[k]@ == address);
                }
                if address == pairs@[i as int]@ {
                    assert(after[i as int]@ == address);
                }
                if addresses(after).contains(address) {
                    let k = choose|k: int| 0 <= k < after.len() && (#[trigger] after[k])@ == address;
                    if k < i {
                        assert(before[k]@ == address);
                    }
                }
            }
            assert(supported@.dom() =~= old(supported)@.dom().difference(addresses(after)));
        }
        i += 1;
    }
    assert(pairs@.take(i as int) =~= pairs@);
}

/// Creates a minter: the sender becomes its admin, and the pairs named, if
/// any, are supported.
pub fn init(env: &Env, msg: InitMsg) -> (res: Result<(CashbackMinter, InitResponse), ContractError>)
    ensures
        match msg.pairs {
            None => res is Ok && res->Ok_0.0.pairs@.dom() == Set::<Seq<char>>::empty(),
            Some(pairs) => if msg.pair_contract_hash is None {
                res == Err::<(CashbackMinter, InitResponse), ContractError>(
                    ContractError::MissingPairHash,
                )
            } else {
                match first_refusal(msg.sscrt_addr@, pairs@) {
                    Some(error) => res == Err::<(CashbackMinter, InitResponse), ContractError>(
                        error,
                    ),
                    None => res is Ok && res->Ok_0.0.pairs@.dom() == pair_addresses(pairs@),
                }
            },
        },
        res is Ok ==> {
            &&& res->Ok_0.0.sscrt_addr == msg.sscrt_addr
            &&& res->Ok_0.0.cashback == msg.cashback
            &&& res->Ok_0.0.admin == env.sender
            &&& res->Ok_0.1.messages@ == Seq::<Message>::empty()
            &&& res->Ok_0.1.log@ == Seq::<LogAttribute>::empty()
        },
{
    let mut supported: Store<u8> = Store::new();
    match &msg.pairs {
        Some(pairs) => {
            if msg.pair_contract_hash.is_none() {
                return Err(ContractError::MissingPairHash);
            }
            match set_pairs_to_storage(&msg.sscrt_addr, &mut supported, pairs) {
                Err(error) => {
                    return Err(error);
                },
                Ok(()) => {},
            }
            assert(supported@.dom() =~= pair_addresses(pairs@));
        },
        None => {},
    }
    let minter = CashbackMinter {
        sscrt_addr: msg.sscrt_addr,
        cashback: msg.cashback,
        admin: env.sender.clone(),
        pairs: supported,
    };
    Ok((minter, InitResponse { messages: Vec::new(), log: Vec::new() }))
}

/// The cashback that a swap of `asset_in` for `asset_out`, reported by
/// the sender of `env`, earns.
pub fn get_eligibility(contract: &CashbackMinter, env: &Env, asset_in: &Asset, asset_out: &Asset) -> (amount: u128)
    ensures
        amount == eligibility(*contract, env.sender@, *asset_in, *asset_out),
{
    if contract.pairs.get(&env.sender).is_none() {
        return 0;
    }
    // The cashback is the SCRT value of the swap
    if is_scrt(&contract.sscrt_addr, &asset_in.info) {
        asset_in.amount
    } else if is_scrt(&contract.sscrt_addr, &asset_out.info) {
        asset_out.amount
    } else {
        0
    }
}

/// Mints the cashback that a reported swap earns to `account`.
pub fn receive_swap_data(contract: &CashbackMinter, env: &Env, asset_in: Asset, asset_out: Asset, account: String) -> (res:
    Result<Response, ContractError>)
    ensures
        receive_swap_data_post(*contract, *env, asset_in, asset_out, account, *contract, res),
{
    let amount = get_eligibility(contract, env, &asset_in, &asset_out);
    let mut messages: Vec<Message> = Vec::new();
    if amount > 0 {
        messages.push(
            Message::Mint {
                token: contract.cashback.clone(),
                recipient: account,
                amount,
                block_size: MINT_BLOCK_SIZE,
            },
        );
    }
    success(messages)
}

/// Adds pairs to those supported.
pub fn add_pairs(contract: &mut CashbackMinter, env: &Env, pairs: Vec<PairAnswer>) -> (res: Result<
    Response,
    ContractError,
>)
    ensures
        add_pairs_post(*old(contract), *env, pairs@, *final(contract), res),
{
    match enforce_admin(&contract.admin, &env.sender) {
        Err(error) => {
            return Err(error);
        },
        Ok(()) => {},
    }
    match set_pairs_to_storage(&contract.sscrt_addr, &mut contract.pairs, &pairs) {
        Err(error) => {
            return Err(error);
        },
        Ok(()) => {},
    }
    success(Vec::new())
}

/// Takes pairs off those supported.
pub fn remove_pairs(contract: &mut CashbackMinter, env: &Env, pairs: Vec<String>) -> (res: Result<
    Response,
    ContractError,
>)
    ensures
        remove_pairs_post(*old(contract), *env, pairs@, *final(contract), res),
{
    match enforce_admin(&contract.admin, &env.sender) {
        Err(error) => {
            return Err(error);
        },
        Ok(()) => {},
    }
    remove_pairs_from_storage(&mut contract.pairs, &pairs);
    success(Vec::new())
}

/// Hands the minter over to a new admin.
pub fn set_admin(contract: &mut CashbackMinter, env: &Env, address: String) -> (res: Result<Response, ContractError>)
    ensures
        set_admin_post(*old(contract), *env, address, *final(contract), res),
{
    match enforce_admin(&contract.admin, &env.sender) {
        Err(error) => {
            return Err(error);
        },
        Ok(()) => {},
    }
    contract.admin = address;
    success(Vec::new())
}

/// Carries out `msg`.
pub fn handle(contract: &mut CashbackMinter, env: &Env, msg: HandleMsg) -> (res: Result<Response, ContractError>)
    ensures
        handle_post(*old(contract), *env, msg, *final(contract), res),
{
    match msg {
        HandleMsg::ReceiveSwapData { asset_in, asset_out, account } => receive_swap_data(
            contract,
            env,
            asset_in,
            asset_out,
            account,
        ),
        HandleMsg::AddPairs { pairs, pair_contract_hash: _ } => add_pairs(contract, env, pairs),
        HandleMsg::RemovePairs { pairs } => remove_pairs(contract, env, pairs),
        HandleMsg::SetAdmin { address } => set_admin(contract, env, address),
    }
}

/// Whether the minter supports the pair at `pair`.
pub fn query_is_eligible(contract: &CashbackMinter, pair: &String) -> (answer: QueryAnswer)
    ensures
        answer == (QueryAnswer::IsSupported { is_supported: contract.pairs@.contains_key(pair@) }),
{
    QueryAnswer::IsSupported { is_supported: contract.pairs.get(pair).is_some() }
}

/// The token that the minter mints.
pub fn query_cashback(contract: &CashbackMinter) -> (answer: QueryAnswer)
    ensures
        answer == (QueryAnswer::Cashback { address: contract.cashback.address }),
{
    QueryAnswer::Cashback { address: contract.cashback.address.clone() }
}

/// Who the admin is.
pub fn query_admin(contract: &CashbackMinter) -> (answer: QueryAnswer)
    ensures
        answer == (QueryAnswer::Admin { address: contract.admin }),
{
    QueryAnswer::Admin { address: contract.admin.clone() }
}

/// Answers a question.
pub fn query(contract: &CashbackMinter, msg: QueryMsg) -> (answer: QueryAnswer)
    ensures
        match msg {
            QueryMsg::IsSupported { pair } => answer == (QueryAnswer::IsSupported {
                is_supported: contract.pairs@.contains_key(pair@),
            }),
            QueryMsg::Cashback => answer == (QueryAnswer::Cashback {
                address: contract.cashback.address,
            }),
            QueryMsg::Admin => answer == (QueryAnswer::Admin { address: contract.admin }),
        },
{
    match msg {
        QueryMsg::IsSupported { pair } => query_is_eligible(contract, &pair),
        QueryMsg::Cashback => query_cashback(contract),
        QueryMsg::Admin => query_admin(contract),
    }
}

} // verus!
