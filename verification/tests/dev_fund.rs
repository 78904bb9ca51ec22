use scrt_finance::dev_fund::contract::{self, init};
use scrt_finance::dev_fund::msg::{HandleAnswer, HandleMsg, InitMsg, QueryAnswer, QueryMsg};
use scrt_finance::dev_fund::state::DevFund;
use scrt_finance::error::{ContractError, ErrorKind};
use scrt_finance::types::{BalanceQuery, Env, HookMsg, Message, ResponseStatus, SecretContract};

fn env(sender: &str) -> Env {
    Env {
        sender: sender.to_string(),
        block_height: 12,
        block_time: 1_571_797_419,
        contract_address: "fund".to_string(),
        contract_code_hash: "fund hash".to_string(),
    }
}

fn sefi() -> SecretContract {
    SecretContract { address: "sefi".to_string(), contract_hash: "sefi hash".to_string() }
}

fn master() -> SecretContract {
    SecretContract { address: "master".to_string(), contract_hash: "master hash".to_string() }
}

fn new_fund(beneficiary: Option<&str>) -> DevFund {
    let (fund, response) = init(
        &env("admin"),
        InitMsg {
            sefi: sefi(),
            master: master(),
            viewing_key: "vk".to_string(),
            beneficiary: beneficiary.map(|b| b.to_string()),
        },
    );
    assert_eq!(
        response.messages,
        vec![Message::SetViewingKey { token: sefi(), key: "vk".to_string(), block_size: 256 }]
    );
    fund
}

fn unknown() -> BalanceQuery {
    BalanceQuery::Failed("not asked".to_string())
}

#[test]
fn init_defaults_the_beneficiary_to_the_creator() {
    let fund = new_fund(None);
    assert_eq!(fund.config.admin, "admin");
    assert_eq!(fund.config.beneficiary, "admin");
    assert_eq!(fund.config.own_addr, "fund");
    assert_eq!(fund.accumulated_rewards, 0);
    let fund = new_fund(Some("ben"));
    assert_eq!(fund.config.beneficiary, "ben");
    assert_eq!(contract::query_beneficiary(&fund), QueryAnswer::Beneficiary { address: "ben".to_string() });
    assert_eq!(contract::query_admin(&fund), QueryAnswer::Admin { address: "admin".to_string() });
    assert_eq!(contract::query_sefi(&fund), QueryAnswer::Sefi { sefi: sefi() });
}

#[test]
fn allocations_accumulate() {
    let mut fund = new_fund(Some("ben"));
    let response = contract::notify_allocation(&mut fund, &env("master"), 70, None).unwrap();
    assert!(response.messages.is_empty());
    assert_eq!(response.data, Some(HandleAnswer::Redeem { status: ResponseStatus::Success }));
    contract::notify_allocation(&mut fund, &env("admin"), 5, None).unwrap();
    assert_eq!(fund.accumulated_rewards, 75);

    let refused = contract::notify_allocation(&mut fund, &env("ben"), 5, None).unwrap_err();
    assert_eq!(refused, ContractError::Unauthorized);
    assert_eq!(refused.kind(), ErrorKind::Unauthorized);
    assert_eq!(refused.message(), "Unauthorized");
    assert_eq!(fund.accumulated_rewards, 75);

    let refused = contract::notify_allocation(&mut fund, &env("master"), u128::MAX, None);
    assert_eq!(refused, Err(ContractError::Arithmetic));
    assert_eq!(fund.accumulated_rewards, 75);
}

#[test]
fn hook_pays_out_of_what_has_accumulated() {
    let mut fund = new_fund(Some("ben"));
    contract::notify_allocation(&mut fund, &env("master"), 100, None).unwrap();

    let hook = HookMsg::Redeem { to: "ben".to_string(), amount: Some(30) };
    let response = contract::notify_allocation(&mut fund, &env("master"), 20, Some(hook)).unwrap();
    assert_eq!(
        response.messages,
        vec![Message::Transfer { token: sefi(), recipient: "ben".to_string(), amount: 30, block_size: 256 }]
    );
    assert_eq!(fund.accumulated_rewards, 90);

    // Without an amount everything is paid, the fresh allocation included.
    let hook = HookMsg::Redeem { to: "vault".to_string(), amount: None };
    let response = contract::notify_allocation(&mut fund, &env("master"), 10, Some(hook)).unwrap();
    assert_eq!(
        response.messages,
        vec![Message::Transfer { token: sefi(), recipient: "vault".to_string(), amount: 100, block_size: 256 }]
    );
    assert_eq!(fund.accumulated_rewards, 0);

    // More than there is: nothing changes, not even the allocation is kept.
    let hook = HookMsg::Redeem { to: "ben".to_string(), amount: Some(6) };
    let refused = contract::notify_allocation(&mut fund, &env("master"), 5, Some(hook));
    assert_eq!(refused, Err(ContractError::InsufficientFunds { balance: 5, required: 6 }));
    assert_eq!(fund.accumulated_rewards, 0);
}

#[test]
fn redeem_asks_the_master_to_settle() {
    let fund = new_fund(Some("ben"));
    let response = contract::redeem(&fund, &env("ben"), Some(40), None).unwrap();
    assert_eq!(
        response.messages,
        vec![Message::UpdateAllocation {
            master: master(),
            spy_addr: "fund".to_string(),
            spy_hash: "fund hash".to_string(),
            hook: Some(HookMsg::Redeem { to: "ben".to_string(), amount: Some(40) }),
        }]
    );
    assert_eq!(response.data, None);

    let response = contract::redeem(&fund, &env("ben"), None, Some("vault".to_string())).unwrap();
    match &response.messages[0] {
        Message::UpdateAllocation { hook, .. } => {
            assert_eq!(hook, &Some(HookMsg::Redeem { to: "vault".to_string(), amount: None }))
        }
        other => panic!("unexpected message: {:?}", other),
    }

    assert_eq!(contract::redeem(&fund, &env("admin"), None, None), Err(ContractError::Unauthorized));
}

#[test]
fn dev_fund_admin_gate() {
    let mut fund = new_fund(Some("ben"));
    let not_admin = Err(ContractError::NotAdmin { sender: "ben".to_string() });
    let balance = BalanceQuery::Balance(9);
    assert_eq!(
        contract::handle(&mut fund, &env("ben"), HandleMsg::ChangeAdmin { address: "ben".to_string() }, &balance),
        not_admin
    );
    assert_eq!(
        contract::handle(&mut fund, &env("ben"), HandleMsg::ChangeBeneficiary { address: "eve".to_string() }, &balance),
        not_admin
    );
    assert_eq!(contract::handle(&mut fund, &env("ben"), HandleMsg::RefreshBalance, &balance), not_admin);
    assert_eq!(fund, new_fund(Some("ben")));

    let response = contract::handle(&mut fund, &env("admin"), HandleMsg::ChangeBeneficiary { address: "eve".to_string() }, &balance)
        .unwrap();
    assert_eq!(response.data, Some(HandleAnswer::ChangeBeneficiary { status: ResponseStatus::Success }));
    assert_eq!(fund.config.beneficiary, "eve");
    let response = contract::handle(&mut fund, &env("admin"), HandleMsg::ChangeAdmin { address: "root".to_string() }, &balance)
        .unwrap();
    assert_eq!(response.data, Some(HandleAnswer::ChangeAdmin { status: ResponseStatus::Success }));
    assert_eq!(fund.config.admin, "root");
    assert_eq!(
        contract::handle(&mut fund, &env("admin"), HandleMsg::RefreshBalance, &balance),
        Err(ContractError::NotAdmin { sender: "admin".to_string() })
    );
}

#[test]
fn refresh_balance_overwrites() {
    let mut fund = new_fund(None);
    contract::notify_allocation(&mut fund, &env("master"), 100, None).unwrap();
    let response = contract::refresh_balance(&mut fund, &env("admin"), &BalanceQuery::Balance(42)).unwrap();
    assert_eq!(response.data, Some(HandleAnswer::RefreshBalance { status: ResponseStatus::Success }));
    assert_eq!(fund.accumulated_rewards, 42);

    let refused = contract::refresh_balance(&mut fund, &env("admin"), &BalanceQuery::Failed("no answer".to_string())).unwrap_err();
    assert_eq!(refused, ContractError::BalanceQueryFailed { reason: "no answer".to_string() });
    assert_eq!(refused.kind(), ErrorKind::ExternalQueryFailure);
    assert_eq!(refused.message(), "Error performing Balance query: no answer");
    assert_eq!(fund.accumulated_rewards, 42);
}

#[test]
fn handle_dispatches() {
    let mut fund = new_fund(Some("ben"));
    contract::handle(&mut fund, &env("master"), HandleMsg::NotifyAllocation { amount: 8, hook: None }, &unknown()).unwrap();
    assert_eq!(fund.accumulated_rewards, 8);
    let response = contract::handle(&mut fund, &env("ben"), HandleMsg::Redeem { amount: None, to: None }, &unknown())
        .unwrap();
    assert_eq!(response.messages.len(), 1);
    assert_eq!(fund.accumulated_rewards, 8);
}

#[test]
fn balance_query_adds_what_is_pending() {
    let mut fund = new_fund(None);
    contract::notify_allocation(&mut fund, &env("master"), 100, None).unwrap();
    assert_eq!(
        contract::query(&fund, QueryMsg::Balance { block: 50 }, &BalanceQuery::Balance(11)),
        Ok(QueryAnswer::Balance { amount: 111 })
    );
    assert_eq!(
        contract::query(&fund, QueryMsg::Balance { block: 50 }, &BalanceQuery::Balance(u128::MAX)),
        Err(ContractError::Arithmetic)
    );
    assert_eq!(
        contract::query(&fund, QueryMsg::Balance { block: 50 }, &unknown()),
        Err(ContractError::BalanceQueryFailed { reason: "not asked".to_string() })
    );
    assert_eq!(contract::query(&fund, QueryMsg::Sefi, &unknown()), Ok(QueryAnswer::Sefi { sefi: sefi() }));
    assert_eq!(contract::query(&fund, QueryMsg::Admin, &unknown()), Ok(QueryAnswer::Admin { address: "admin".to_string() }));
}
