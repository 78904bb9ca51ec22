use rand::Rng;
use scrt_finance::error::{ContractError, ErrorKind};
use scrt_finance::lp_staking::contract::{self, init};
use scrt_finance::lp_staking::msg::{
    HandleAnswer, HandleData, InitMsg, LPStakingHandleMsg, QueryAnswer, QueryMsg, ReceiveAnswer,
    ReceiveMsg, Response,
};
use scrt_finance::lp_staking::state::{LpStaking, RewardPool, UserInfo};
use scrt_finance::types::{BalanceQuery, Env, Message, ResponseStatus, SecretContract};

const MOCK_CONTRACT_ADDR: &str = "cosmos2contract";
const INC_TOKEN_SCALE: u128 = 1_000_000_000_000;

// Helper functions

/// A fast source of the many random draws of a simulated run, seeded from the
/// thread's generator.
struct Dice(u64);

impl Dice {
    fn new() -> Dice {
        Dice(rand::thread_rng().gen_range(1, u64::MAX))
    }

    fn next(&mut self) -> u64 {
        self.0 ^= self.0 >> 12;
        self.0 ^= self.0 << 25;
        self.0 ^= self.0 >> 27;
        self.0.wrapping_mul(0x2545_F491_4F6C_DD1D)
    }

    /// A number from `low` up to, but not including, `high`.
    fn gen_range(&mut self, low: u128, high: u128) -> u128 {
        let wide = ((self.next() as u128) << 64) | self.next() as u128;
        low + wide % (high - low)
    }
}

fn init_helper(deadline: u64) -> LpStaking {
    let env = mock_env("admin", 1);
    let init_msg = InitMsg {
        reward_token: SecretContract {
            address: "scrt".to_string(),
            contract_hash: "1".to_string(),
        },
        inc_token: SecretContract {
            address: "eth".to_string(),
            contract_hash: "2".to_string(),
        },
        master: SecretContract {
            address: "master".to_string(),
            contract_hash: "3".to_string(),
        },
        deadline,
        pool_claim_block: deadline + 1,
        prng_seed: "lolz fun yay".as_bytes().to_vec(),
        viewing_key: "123".to_string(),
    };

    let (pool, _) = init(&env, init_msg);
    pool
}

fn mock_env(sender: &str, height: u64) -> Env {
    Env {
        sender: sender.to_string(),
        block_height: height,
        block_time: 1_571_797_419,
        contract_address: MOCK_CONTRACT_ADDR.to_string(),
        contract_code_hash: "".to_string(),
    }
}

fn no_balance() -> BalanceQuery {
    BalanceQuery::Failed(
        "Generic error: Querier system error: No such contract: scrt".to_string(),
    )
}

fn handle(pool: &mut LpStaking, env: Env, msg: LPStakingHandleMsg) -> Result<Response, ContractError> {
    contract::handle(pool, &env, msg, &no_balance())
}

fn deposit_msg(from: &str, amount: u128) -> LPStakingHandleMsg {
    LPStakingHandleMsg::Receive {
        sender: from.to_string(),
        from: from.to_string(),
        amount,
        msg: ReceiveMsg::Deposit,
    }
}

fn rewards_msg(from: &str, amount: u128) -> LPStakingHandleMsg {
    LPStakingHandleMsg::Receive {
        sender: from.to_string(),
        from: from.to_string(),
        amount,
        msg: ReceiveMsg::DepositRewards,
    }
}

fn handle_answer(response: Response) -> HandleAnswer {
    match response.data {
        Some(HandleData::Handle(answer)) => answer,
        other => panic!("unexpected answer: {:?}", other),
    }
}

fn msg_from_action(
    rng: &mut Dice,
    pool: &LpStaking,
    action: &str,
    user: String,
    block: u64,
) -> (LPStakingHandleMsg, String) {
    let chance = rng.gen_range(0, 100000);

    match action {
        "deposit" => {
            // Stakes are deposited in the units of the pool's books
            let amount: u128 = rng.gen_range(10e12 as u128, 1000e18 as u128) / INC_TOKEN_SCALE;

            (deposit_msg(&user, amount), "eth".to_string())
        }
        "redeem" => {
            let amount: u128 = rng.gen_range(1e12 as u128, 1000e18 as u128);

            let msg = LPStakingHandleMsg::Redeem {
                amount: Some(amount),
            };

            (msg, user)
        }
        "deadline" if chance == 42 => {
            let current = pool.config.deadline as f64;

            let new = rng.gen_range((current + 1.0) as u128, (current * 1.001) as u128 + 1);

            let msg = LPStakingHandleMsg::SetDeadline { block: new as u64 };

            (msg, "admin".to_string())
        }
        // Rewards that come in after the deadline never vest
        "rewards" if chance == 7 && block < pool.config.deadline => {
            let amount: u128 = rng.gen_range(10000e6 as u128, 100000e6 as u128);

            (rewards_msg(&user, amount), "scrt".to_string())
        }
        _ => (
            LPStakingHandleMsg::Redeem {
                amount: Some(u128::MAX), // This will never work but will keep the tests going
            },
            "".to_string(),
        ),
    }
}

fn print_status(pool: &LpStaking, users: Vec<String>, block: u64) {
    println!("####### Statistics for block: {} #######", block);
    println!("Deadline: {}", pool.config.deadline);
    println!("Locked ETH: {}", pool.reward_pool.inc_token_supply);
    println!("Pending rewards: {}", pool.reward_pool.pending_rewards);
    println!(
        "Accumulated rewards per share: {}",
        pool.reward_pool.acc_reward_per_share
    );
    println!("Last reward block: {}", pool.reward_pool.last_reward_block);

    for user in users {
        println!("## {}:", user);
        let user_info = pool
            .users
            .get(&user)
            .copied()
            .unwrap_or(UserInfo { locked: 0, debt: 0 });
        let rewards = query_rewards(pool, user.clone(), block);

        println!("Locked: {}", user_info.locked);
        println!("Debt: {}", user_info.debt);
        println!("Reward: {}", rewards);
    }

    println!();
}

fn query_rewards(pool: &LpStaking, user: String, block: u64) -> u128 {
    let query_msg = QueryMsg::Rewards {
        address: user,
        height: block,
        key: "42".to_string(),
    };

    match contract::query(pool, query_msg).unwrap() {
        QueryAnswer::Rewards { rewards } => rewards,
        other => panic!("not an answer about rewards: {:?}", other),
    }
}

fn set_vks(pool: &mut LpStaking, users: Vec<String>) {
    for user in users {
        let vk_msg = LPStakingHandleMsg::SetViewingKey {
            key: "42".to_string(),
        };
        handle(pool, mock_env(&user, 2001), vk_msg).unwrap();
    }
}

fn extract_rewards(result: Result<Response, ContractError>) -> u128 {
    match result {
        Ok(resp) => {
            for message in resp.messages {
                match message {
                    Message::Transfer { token, amount, .. } => {
                        if token.address == "scrt" {
                            return amount;
                        }
                    }
                    _ => panic!(),
                }
            }
        }
        Err(e) => match e {
            ContractError::InsufficientFunds { .. } => {}
            // A deadline in the past is refused; the run goes on without it.
            ContractError::DeadlinePassed { .. } => {}
            _ => panic!("{}", e.message()),
        },
    }

    0
}

fn extract_reward_deposit(msg: &LPStakingHandleMsg) -> u128 {
    match msg {
        LPStakingHandleMsg::Receive { amount, msg, .. } => match msg {
            ReceiveMsg::DepositRewards => *amount,
            _ => 0,
        },
        _ => 0,
    }
}

fn sanity_run(mut rewards: u128, mut deadline: u64) {
    let mut rng = Dice::new();

    let mut pool = init_helper(deadline);

    contract::deposit_rewards(&mut pool, &mock_env("scrt", 1), rewards).unwrap();

    let actions = vec!["deposit", "redeem", "deadline", "rewards"];
    let users = vec![
        "Lebron James".to_string(),
        "Kobe Bryant".to_string(),
        "Giannis".to_string(),
        "Steph Curry".to_string(),
        "Deni Avdija".to_string(),
    ];

    let mut total_rewards_output = 0;

    set_vks(&mut pool, users.clone());
    let mut block: u64 = 2;
    while block < (deadline + 10_000) {
        let num_of_actions = rng.gen_range(0, 5);

        for _ in 0..num_of_actions {
            let action_idx = rng.gen_range(0, actions.len() as u128) as usize;

            let user_idx = rng.gen_range(0, users.len() as u128) as usize;
            let user = users[user_idx].clone();

            let (msg, sender) = msg_from_action(&mut rng, &pool, actions[action_idx], user.clone(), block);
            rewards += extract_reward_deposit(&msg);
            let result = handle(&mut pool, mock_env(&sender, block), msg);
            total_rewards_output += extract_rewards(result);
        }

        if block % 10000 == 0 {
            print_status(&pool, users.clone(), block);
        }

        deadline = pool.config.deadline;
        block += 1;
    }

    // Make sure all users are fully redeemed
    for user in users.clone() {
        let redeem_msg = LPStakingHandleMsg::Redeem { amount: None };
        let result = handle(&mut pool, mock_env(&user, 1_700_000), redeem_msg);
        total_rewards_output += extract_rewards(result);
    }

    let error = 1.0 - (total_rewards_output as f64 / rewards as f64);
    println!("Error is: {}", error);
    assert!(error >= 0f64 && error < 0.01);

    // Do another run after first iteration is ended
    continue_after_ended(&mut pool, deadline, actions, users);
}

fn continue_after_ended(pool: &mut LpStaking, deadline: u64, actions: Vec<&str>, users: Vec<String>) {
    let mut rng = Dice::new();

    let start_block = deadline + 10_001;
    let mut new_deadline = start_block + 500_000;
    let mut rewards = 500_000_000000;
    let mut total_rewards_output = 0;

    let msg = LPStakingHandleMsg::SetDeadline {
        block: new_deadline,
    };
    let _result = handle(pool, mock_env("admin", start_block), msg);
    let msg = rewards_msg("admin", rewards);
    let _result = handle(pool, mock_env("scrt", start_block + 1), msg);

    let mut block = start_block + 2;
    while block < (new_deadline + 10_000) {
        let num_of_actions = rng.gen_range(0, 5);

        for _ in 0..num_of_actions {
            let action_idx = rng.gen_range(0, actions.len() as u128) as usize;

            let user_idx = rng.gen_range(0, users.len() as u128) as usize;
            let user = users[user_idx].clone();

            let (msg, sender) = msg_from_action(&mut rng, pool, actions[action_idx], user.clone(), block);
            rewards += extract_reward_deposit(&msg);
            let result = handle(pool, mock_env(&sender, block), msg);
            total_rewards_output += extract_rewards(result);
        }

        if block % 10000 == 0 {
            print_status(pool, users.clone(), block);
        }

        new_deadline = pool.config.deadline;
        block += 1;
    }

    // Make sure all users are fully redeemed
    for user in users {
        let redeem_msg = LPStakingHandleMsg::Redeem { amount: None };
        let result = handle(pool, mock_env(&user, 1_700_000), redeem_msg);
        total_rewards_output += extract_rewards(result);
    }

    let error = 1.0 - (total_rewards_output as f64 / rewards as f64);
    println!("Error is: {}", error);
    assert!(error >= 0f64 && error < 0.01);
}

// Tests

#[test]
fn test_claim_pool() {
    let mut pool = init_helper(10000000); // Claim height is deadline + 1

    let handle_response = handle(
        &mut pool,
        mock_env("not_admin", 10),
        LPStakingHandleMsg::ClaimRewardPool { to: None },
    );
    assert_eq!(
        handle_response.unwrap_err().message(),
        "not an admin: not_admin".to_string()
    );

    let handle_response = handle(
        &mut pool,
        mock_env("admin", 10),
        LPStakingHandleMsg::ClaimRewardPool { to: None },
    );
    assert_eq!(
        handle_response.unwrap_err().message(),
        format!("minimum claim height hasn't passed yet: {}", 10000001)
    );

    let handle_response = handle(
        &mut pool,
        mock_env("admin", 10000001),
        LPStakingHandleMsg::ClaimRewardPool { to: None },
    );
    assert_eq!(
        handle_response.unwrap_err().message(),
        "Error performing Balance query: Generic error: Querier system error: No such contract: scrt".to_string() // No way to test external queries yet
    );
}

#[test]
fn test_stop_contract() {
    let mut pool = init_helper(10000000);

    let handle_response = handle(
        &mut pool,
        mock_env("not_admin", 10),
        LPStakingHandleMsg::StopContract,
    );
    assert_eq!(
        handle_response.unwrap_err().message(),
        "not an admin: not_admin".to_string()
    );

    let handle_response = handle(&mut pool, mock_env("admin", 10), LPStakingHandleMsg::StopContract);
    assert_eq!(
        handle_answer(handle_response.unwrap()),
        HandleAnswer::StopContract {
            status: ResponseStatus::Success
        }
    );

    let redeem_msg = LPStakingHandleMsg::Redeem { amount: None };
    let handle_response = handle(&mut pool, mock_env("user", 20), redeem_msg);
    assert_eq!(
        handle_response.unwrap_err().message(),
        "this contract is stopped and this action is not allowed".to_string()
    );

    let resume_msg = LPStakingHandleMsg::ResumeContract;
    let handle_response = handle(&mut pool, mock_env("admin", 21), resume_msg);
    assert_eq!(
        handle_answer(handle_response.unwrap()),
        HandleAnswer::ResumeContract {
            status: ResponseStatus::Success
        }
    );

    let redeem_msg = LPStakingHandleMsg::Redeem { amount: None };
    let handle_response = handle(&mut pool, mock_env("user", 20), redeem_msg);
    assert_eq!(
        handle_answer(handle_response.unwrap()),
        HandleAnswer::Redeem {
            status: ResponseStatus::Success
        }
    );
}

#[test]
fn test_admin() {
    let mut pool = init_helper(10000000);

    let admin_action_msg = LPStakingHandleMsg::ChangeAdmin {
        address: "not_admin".to_string(),
    };
    let handle_response = handle(&mut pool, mock_env("not_admin", 1), admin_action_msg);
    assert_eq!(
        handle_response.unwrap_err().message(),
        "not an admin: not_admin".to_string()
    );

    let admin_action_msg = LPStakingHandleMsg::ChangeAdmin {
        address: "new_admin".to_string(),
    };
    let handle_response = handle(&mut pool, mock_env("admin", 1), admin_action_msg);
    assert_eq!(
        handle_answer(handle_response.unwrap()),
        HandleAnswer::ChangeAdmin {
            status: ResponseStatus::Success
        }
    );

    let admin_action_msg = LPStakingHandleMsg::ChangeAdmin {
        address: "not_admin".to_string(),
    };
    let handle_response = handle(&mut pool, mock_env("admin", 1), admin_action_msg);
    assert_eq!(
        handle_response.unwrap_err().message(),
        "not an admin: admin".to_string()
    );

    let admin_action_msg = LPStakingHandleMsg::ChangeAdmin {
        address: "not_admin".to_string(),
    };
    let handle_response = handle(&mut pool, mock_env("new_admin", 1), admin_action_msg);
    assert_eq!(
        handle_answer(handle_response.unwrap()),
        HandleAnswer::ChangeAdmin {
            status: ResponseStatus::Success
        }
    );
}

#[test]
fn test_single_run() {
    let mut rng = rand::thread_rng();

    let deadline: u64 = rng.gen_range(100_000, 5_000_000);
    let rewards: u128 = rng.gen_range(1_000_000000, 10_000_000_000000); // 1k-10mn SCRT

    sanity_run(rewards, deadline);
}

// Scenarios

fn reward_paid(response: &Response) -> u128 {
    for message in &response.messages {
        if let Message::Transfer { token, amount, .. } = message {
            if token.address == "scrt" {
                return *amount;
            }
        }
    }
    0
}

fn stake_returned(response: &Response) -> u128 {
    for message in &response.messages {
        if let Message::Transfer { token, amount, .. } = message {
            if token.address == "eth" {
                return *amount;
            }
        }
    }
    0
}

#[test]
fn single_depositor_full_cycle() {
    let mut pool = init_helper(1000);
    assert_eq!(pool.config.pool_claim_block, 1001);

    // A million is withheld as dust; a million is left to vest.
    handle(&mut pool, mock_env("scrt", 1), rewards_msg("funder", 2_000_000)).unwrap();
    assert_eq!(pool.reward_pool.pending_rewards, 1_000_000);

    handle(&mut pool, mock_env("eth", 2), deposit_msg("U", 100)).unwrap();
    let response = handle(
        &mut pool,
        mock_env("U", 1000),
        LPStakingHandleMsg::Redeem { amount: None },
    )
    .unwrap();

    assert_eq!(stake_returned(&response), 100 * 1_000_000_000_000);
    let reward = reward_paid(&response);
    assert!(reward >= 999_000 && reward <= 1_000_000);
    assert_eq!(pool.reward_pool.inc_token_supply, 0);
    assert_eq!(pool.users.get(&"U".to_string()), Some(&UserInfo { locked: 0, debt: 0 }));
}

#[test]
fn proportional_split() {
    let mut pool = init_helper(1000);
    handle(&mut pool, mock_env("scrt", 1), rewards_msg("funder", 2_000_000)).unwrap();
    handle(&mut pool, mock_env("eth", 2), deposit_msg("A", 100)).unwrap();
    handle(&mut pool, mock_env("eth", 2), deposit_msg("B", 300)).unwrap();

    let a = handle(&mut pool, mock_env("A", 1000), LPStakingHandleMsg::Redeem { amount: None }).unwrap();
    let b = handle(&mut pool, mock_env("B", 1000), LPStakingHandleMsg::Redeem { amount: None }).unwrap();

    let paid_a = reward_paid(&a) as f64;
    let paid_b = reward_paid(&b) as f64;
    let total = paid_a + paid_b;
    assert!((paid_a / total - 0.25).abs() / 0.25 < 0.01);
    assert!((paid_b / total - 0.75).abs() / 0.75 < 0.01);
    assert_eq!(reward_paid(&a), 250_000);
    assert_eq!(reward_paid(&b), 750_000);
}

#[test]
fn stop_and_resume() {
    let mut pool = init_helper(1000);
    handle(&mut pool, mock_env("eth", 2), deposit_msg("U", 100)).unwrap();
    handle(&mut pool, mock_env("admin", 3), LPStakingHandleMsg::StopContract).unwrap();
    assert_eq!(
        contract::query(&pool, QueryMsg::ContractStatus),
        Ok(QueryAnswer::ContractStatus { is_stopped: true })
    );

    let refused = handle(&mut pool, mock_env("eth", 4), deposit_msg("V", 5)).unwrap_err();
    assert_eq!(refused, ContractError::ContractStopped);
    assert_eq!(refused.kind(), ErrorKind::ContractStopped);
    let refused = handle(&mut pool, mock_env("U", 4), LPStakingHandleMsg::Redeem { amount: Some(1) });
    assert_eq!(refused, Err(ContractError::ContractStopped));

    let response = handle(&mut pool, mock_env("U", 5), LPStakingHandleMsg::EmergencyRedeem).unwrap();
    assert_eq!(stake_returned(&response), 100 * 1_000_000_000_000);
    assert_eq!(reward_paid(&response), 0);
    assert_eq!(pool.users.get(&"U".to_string()), Some(&UserInfo { locked: 0, debt: 0 }));
    assert_eq!(pool.reward_pool.inc_token_supply, 0);

    handle(&mut pool, mock_env("admin", 6), LPStakingHandleMsg::ResumeContract).unwrap();
    let response = handle(&mut pool, mock_env("eth", 7), deposit_msg("V", 5)).unwrap();
    assert_eq!(
        response.data,
        Some(HandleData::Receive(ReceiveAnswer::Deposit {
            status: ResponseStatus::Success
        }))
    );
    assert_eq!(pool.users.get(&"V".to_string()), Some(&UserInfo { locked: 5, debt: 0 }));
}

#[test]
fn emergency_redeem_is_refused_while_running() {
    let mut pool = init_helper(1000);
    let refused = handle(&mut pool, mock_env("U", 5), LPStakingHandleMsg::EmergencyRedeem).unwrap_err();
    assert_eq!(refused, ContractError::UnavailableAction);
    assert_eq!(refused.kind(), ErrorKind::InvalidInput);
    assert_eq!(refused.message(), "Unavailable or unknown action");
    let refused = handle(&mut pool, mock_env("admin", 5), LPStakingHandleMsg::ResumeContract);
    assert_eq!(refused, Err(ContractError::UnavailableAction));
}

#[test]
fn deadline_change_mid_epoch() {
    let mut pool = init_helper(1000);
    pool.reward_pool = RewardPool {
        pending_rewards: 1_000_000,
        inc_token_supply: 0,
        last_reward_block: 0,
        acc_reward_per_share: 0,
    };
    handle(&mut pool, mock_env("eth", 500), deposit_msg("U", 100)).unwrap();
    assert_eq!(pool.reward_pool.last_reward_block, 500);
    assert_eq!(pool.reward_pool.pending_rewards, 1_000_000);

    handle(&mut pool, mock_env("admin", 750), LPStakingHandleMsg::SetDeadline { block: 2000 }).unwrap();
    // Settled under the old deadline first: 250 of the 500 blocks that were left.
    assert_eq!(pool.reward_pool.pending_rewards, 500_000);
    assert_eq!(pool.reward_pool.last_reward_block, 750);
    assert_eq!(pool.reward_pool.acc_reward_per_share, 500_000 * 1_000_000_000_000 / 100);
    assert_eq!(pool.config.deadline, 2000);

    // From 750 to 1500 under the new deadline: 750 of the 1250 blocks left.
    let response = handle(&mut pool, mock_env("U", 1500), LPStakingHandleMsg::Redeem { amount: None }).unwrap();
    assert_eq!(reward_paid(&response), 500_000 + 750 * 500_000 / 1250);
    assert_eq!(pool.reward_pool.pending_rewards, 500_000 - 300_000);
}

#[test]
fn deadline_extended_at_the_settled_block() {
    let mut pool = init_helper(1000);
    pool.reward_pool.pending_rewards = 1_000_000;
    handle(&mut pool, mock_env("eth", 500), deposit_msg("U", 100)).unwrap();
    handle(&mut pool, mock_env("admin", 500), LPStakingHandleMsg::SetDeadline { block: 2000 }).unwrap();
    assert_eq!(pool.reward_pool.pending_rewards, 1_000_000);
    let rewards = contract::query_pending_rewards(&pool, &"U".to_string(), 1500).unwrap();
    // 1000 of the 1500 blocks between 500 and 2000.
    assert_eq!(rewards, QueryAnswer::Rewards { rewards: 1000 * 1_000_000 / 1500 });
}

#[test]
fn deadline_in_the_past_is_refused() {
    let mut pool = init_helper(1000);
    let refused = handle(&mut pool, mock_env("admin", 600), LPStakingHandleMsg::SetDeadline { block: 599 })
        .unwrap_err();
    assert_eq!(refused, ContractError::DeadlinePassed { height: 599, block: 600 });
    assert_eq!(refused.kind(), ErrorKind::InvalidInput);
    assert_eq!(refused.message(), "deadline 599 lies before block 600");
    assert_eq!(pool.config.deadline, 1000);
}

#[test]
fn viewing_key_check() {
    let mut pool = init_helper(1000);
    handle(&mut pool, mock_env("eth", 2), deposit_msg("addr", 7)).unwrap();
    handle(
        &mut pool,
        mock_env("addr", 3),
        LPStakingHandleMsg::SetViewingKey { key: "vk1".to_string() },
    )
    .unwrap();

    let rewards = |address: &str, key: &str| QueryMsg::Rewards {
        address: address.to_string(),
        height: 10,
        key: key.to_string(),
    };
    assert_eq!(contract::query(&pool, rewards("addr", "vk1")), Ok(QueryAnswer::Rewards { rewards: 0 }));
    let refusal = Ok(QueryAnswer::QueryError {
        msg: "Wrong viewing key for this address or viewing key not set".to_string(),
    });
    assert_eq!(contract::query(&pool, rewards("addr", "wrong")), refusal);
    assert_eq!(contract::query(&pool, rewards("other_addr", "vk1")), refusal);

    let deposit = QueryMsg::Deposit { address: "addr".to_string(), key: "vk1".to_string() };
    assert_eq!(contract::query(&pool, deposit), Ok(QueryAnswer::Deposit { deposit: 7 * 1_000_000_000_000 }));
    let deposit = QueryMsg::Deposit { address: "addr".to_string(), key: "vk2".to_string() };
    assert_eq!(contract::query(&pool, deposit), refusal);
}

#[test]
fn created_viewing_key_opens_queries() {
    let mut pool = init_helper(1000);
    let response = handle(
        &mut pool,
        mock_env("addr", 3),
        LPStakingHandleMsg::CreateViewingKey { entropy: "some entropy".to_string() },
    )
    .unwrap();
    let key = match handle_answer(response) {
        HandleAnswer::CreateViewingKey { key } => key,
        other => panic!("unexpected answer: {:?}", other),
    };
    assert_eq!(key.0.len(), 64);
    assert!(key.0.chars().all(|c| c.is_ascii_hexdigit()));
    let query = QueryMsg::Deposit { address: "addr".to_string(), key: key.0.clone() };
    assert_eq!(contract::query(&pool, query), Ok(QueryAnswer::Deposit { deposit: 0 }));

    // Another sender, block or entropy gives another key.
    let response = handle(
        &mut pool,
        mock_env("addr", 4),
        LPStakingHandleMsg::CreateViewingKey { entropy: "some entropy".to_string() },
    )
    .unwrap();
    match handle_answer(response) {
        HandleAnswer::CreateViewingKey { key: second } => assert_ne!(second, key),
        other => panic!("unexpected answer: {:?}", other),
    }
}

#[test]
fn update_rewards_formula() {
    let mut pool = RewardPool {
        pending_rewards: 1_000_000,
        inc_token_supply: 400,
        last_reward_block: 100,
        acc_reward_per_share: 5,
    };
    pool.update_rewards(400, 1000).unwrap();
    // 300 of the 900 blocks left: a third of the pending rewards vests.
    assert_eq!(pool.pending_rewards, 1_000_000 - 333_333);
    assert_eq!(pool.acc_reward_per_share, 5 + 333_333 * 1_000_000_000_000 / 400);
    assert_eq!(pool.last_reward_block, 400);
    assert_eq!(pool.inc_token_supply, 400);
}

#[test]
fn update_rewards_guards() {
    let start = RewardPool {
        pending_rewards: 1_000,
        inc_token_supply: 10,
        last_reward_block: 100,
        acc_reward_per_share: 0,
    };
    // Not later than the last settlement: nothing happens.
    let mut pool = start;
    pool.update_rewards(100, 1000).unwrap();
    assert_eq!(pool, start);
    pool.update_rewards(50, 1000).unwrap();
    assert_eq!(pool, start);

    // No stake: only the settled block moves.
    let mut pool = RewardPool { inc_token_supply: 0, ..start };
    pool.update_rewards(200, 1000).unwrap();
    assert_eq!(pool, RewardPool { inc_token_supply: 0, last_reward_block: 200, ..start });

    // No rewards: only the settled block moves.
    let mut pool = RewardPool { pending_rewards: 0, ..start };
    pool.update_rewards(200, 1000).unwrap();
    assert_eq!(pool, RewardPool { pending_rewards: 0, last_reward_block: 200, ..start });

    // Past the deadline the block is clamped and everything vests.
    let mut pool = start;
    pool.update_rewards(5000, 1000).unwrap();
    assert_eq!(pool.last_reward_block, 1000);
    assert_eq!(pool.pending_rewards, 0);
    assert_eq!(pool.acc_reward_per_share, 1_000 * 1_000_000_000_000 / 10);

    // And nothing more happens after that.
    let settled = pool;
    pool.update_rewards(6000, 1000).unwrap();
    assert_eq!(pool, settled);
}

#[test]
fn update_rewards_overflow_changes_nothing() {
    let start = RewardPool {
        pending_rewards: u128::MAX,
        inc_token_supply: 1,
        last_reward_block: 0,
        acc_reward_per_share: 0,
    };
    let mut pool = start;
    assert_eq!(pool.update_rewards(10, 1000), Err(ContractError::Arithmetic));
    assert_eq!(pool, start);
    assert_eq!(ContractError::Arithmetic.kind(), ErrorKind::Arithmetic);
    assert_eq!(ContractError::Arithmetic.message(), "arithmetic overflow");
}

#[test]
fn deposit_is_only_taken_from_the_staked_token() {
    let mut pool = init_helper(1000);
    let refused = handle(&mut pool, mock_env("scrt", 2), deposit_msg("U", 100)).unwrap_err();
    assert_eq!(
        refused,
        ContractError::UnsupportedToken { supported: "eth".to_string(), given: "scrt".to_string() }
    );
    assert_eq!(refused.kind(), ErrorKind::Unauthorized);
    assert_eq!(
        refused.message(),
        "This token is not supported. Supported: eth, given: scrt"
    );
    let refused = handle(&mut pool, mock_env("eth", 2), rewards_msg("U", 2_000_000)).unwrap_err();
    assert_eq!(
        refused,
        ContractError::UnsupportedToken { supported: "scrt".to_string(), given: "eth".to_string() }
    );
    assert_eq!(pool.reward_pool.pending_rewards, 0);
}

#[test]
fn reward_deposit_must_exceed_the_dust() {
    let mut pool = init_helper(1000);
    let refused = handle(&mut pool, mock_env("scrt", 2), rewards_msg("U", 1_000_000)).unwrap_err();
    assert_eq!(refused, ContractError::InvalidAmount { amount: 1_000_000 });
    assert_eq!(refused.kind(), ErrorKind::InvalidInput);
    assert_eq!(
        refused.message(),
        "reward deposit does not exceed the withheld dust: 1000000"
    );
    let refused = handle(&mut pool, mock_env("scrt", 2), rewards_msg("U", 3));
    assert_eq!(refused, Err(ContractError::InvalidAmount { amount: 3 }));

    handle(&mut pool, mock_env("scrt", 2), rewards_msg("U", 1_000_001)).unwrap();
    assert_eq!(pool.reward_pool.pending_rewards, 1);
}

#[test]
fn redeem_more_than_locked_fails() {
    let mut pool = init_helper(1000);
    handle(&mut pool, mock_env("eth", 2), deposit_msg("U", 100)).unwrap();
    let before = pool.reward_pool;
    let refused = handle(
        &mut pool,
        mock_env("U", 3),
        LPStakingHandleMsg::Redeem { amount: Some(101 * 1_000_000_000_000) },
    )
    .unwrap_err();
    assert_eq!(refused, ContractError::InsufficientFunds { balance: 100, required: 101 });
    assert_eq!(refused.kind(), ErrorKind::InsufficientFunds);
    assert_eq!(
        refused.message(),
        "insufficient funds to redeem: balance=100, required=101"
    );
    assert_eq!(pool.reward_pool, before);

    // Part of the stake, scaled down from the token's units.
    let response = handle(
        &mut pool,
        mock_env("U", 3),
        LPStakingHandleMsg::Redeem { amount: Some(40 * 1_000_000_000_000 + 5) },
    )
    .unwrap();
    assert_eq!(stake_returned(&response), 40 * 1_000_000_000_000);
    assert_eq!(pool.users.get(&"U".to_string()), Some(&UserInfo { locked: 60, debt: 0 }));
    assert_eq!(pool.reward_pool.inc_token_supply, 60);
}

#[test]
fn second_deposit_pays_what_is_owed() {
    let mut pool = init_helper(1000);
    handle(&mut pool, mock_env("scrt", 0), rewards_msg("funder", 2_000_000)).unwrap();
    handle(&mut pool, mock_env("eth", 0), deposit_msg("U", 10)).unwrap();
    let response = handle(&mut pool, mock_env("eth", 500), deposit_msg("U", 30)).unwrap();
    assert_eq!(
        response.messages,
        vec![Message::Transfer {
            token: SecretContract { address: "scrt".to_string(), contract_hash: "1".to_string() },
            recipient: "U".to_string(),
            amount: 500_000,
            block_size: 256,
        }]
    );
    let acc = 500_000 * 1_000_000_000_000 / 10;
    assert_eq!(pool.reward_pool.acc_reward_per_share, acc);
    assert_eq!(
        pool.users.get(&"U".to_string()),
        Some(&UserInfo { locked: 40, debt: 40 * acc / 1_000_000_000_000 })
    );
    assert_eq!(pool.reward_pool.inc_token_supply, 40);
}

#[test]
fn supply_is_the_sum_of_stakes() {
    let mut pool = init_helper(1000);
    handle(&mut pool, mock_env("scrt", 1), rewards_msg("funder", 5_000_000)).unwrap();
    handle(&mut pool, mock_env("eth", 2), deposit_msg("A", 100)).unwrap();
    handle(&mut pool, mock_env("eth", 3), deposit_msg("B", 250)).unwrap();
    handle(&mut pool, mock_env("eth", 4), deposit_msg("A", 50)).unwrap();
    handle(&mut pool, mock_env("B", 5), LPStakingHandleMsg::Redeem { amount: Some(70_000_000_000_000) })
        .unwrap();
    let mut sum = 0;
    for slot in 0..pool.users.len() {
        sum += pool.users.entry_at(slot).value.locked;
    }
    assert_eq!(sum, 100 + 250 + 50 - 70);
    assert_eq!(pool.reward_pool.inc_token_supply, sum);
}

#[test]
fn claim_reward_pool_sweeps_the_balance() {
    let mut pool = init_helper(1000);
    let response = contract::handle(&mut pool, &mock_env("admin", 1001),
            LPStakingHandleMsg::ClaimRewardPool { to: Some("vault".to_string()) },
            &BalanceQuery::Balance(777),
        )
        .unwrap();
    assert_eq!(
        response.messages,
        vec![Message::Transfer {
            token: SecretContract { address: "scrt".to_string(), contract_hash: "1".to_string() },
            recipient: "vault".to_string(),
            amount: 777,
            block_size: 256,
        }]
    );
    let response = contract::handle(&mut pool, &mock_env("admin", 1001),
            LPStakingHandleMsg::ClaimRewardPool { to: None },
            &BalanceQuery::Balance(777),
        )
        .unwrap();
    match &response.messages[0] {
        Message::Transfer { recipient, .. } => assert_eq!(recipient, "admin"),
        other => panic!("unexpected message: {:?}", other),
    }
    let early = contract::handle(&mut pool, &mock_env("admin", 1000),
        LPStakingHandleMsg::ClaimRewardPool { to: None },
        &BalanceQuery::Balance(777),
    );
    assert_eq!(early, Err(ContractError::ClaimTooEarly { claim_block: 1001 }));
    assert_eq!(early.unwrap_err().kind(), ErrorKind::Precondition);
    assert_eq!(
        ContractError::BalanceQueryFailed { reason: "x".to_string() }.kind(),
        ErrorKind::ExternalQueryFailure
    );
}

#[test]
fn init_registers_with_both_tokens() {
    let env = mock_env("admin", 1);
    let reward_token = SecretContract { address: "scrt".to_string(), contract_hash: "1".to_string() };
    let inc_token = SecretContract { address: "eth".to_string(), contract_hash: "2".to_string() };
    let (pool, response) = init(
        &Env { contract_code_hash: "pool hash".to_string(), ..env },
        InitMsg {
            reward_token: reward_token.clone(),
            inc_token: inc_token.clone(),
            master: SecretContract { address: "master".to_string(), contract_hash: "3".to_string() },
            deadline: 10,
            pool_claim_block: 11,
            prng_seed: b"seed".to_vec(),
            viewing_key: "123".to_string(),
        },
    );
    assert_eq!(
        response.messages,
        vec![
            Message::RegisterReceive {
                token: reward_token.clone(),
                code_hash: "pool hash".to_string(),
                block_size: 1
            },
            Message::RegisterReceive {
                token: inc_token.clone(),
                code_hash: "pool hash".to_string(),
                block_size: 1
            },
            Message::SetViewingKey { token: reward_token, key: "123".to_string(), block_size: 256 },
            Message::SetViewingKey { token: inc_token, key: "123".to_string(), block_size: 256 },
        ]
    );
    assert_eq!(pool.config.admin, "admin");
    assert!(!pool.config.is_stopped);
    assert_eq!(pool.config.prng_seed.len(), 32);
    assert_ne!(pool.config.prng_seed, b"seed".to_vec());
    assert_eq!(
        pool.reward_pool,
        RewardPool { pending_rewards: 0, inc_token_supply: 0, last_reward_block: 0, acc_reward_per_share: 0 }
    );
    assert_eq!(pool.users.len(), 0);
}

#[test]
fn public_queries() {
    let pool = init_helper(1000);
    assert_eq!(contract::query(&pool, QueryMsg::ClaimBlock), Ok(QueryAnswer::ClaimBlock { height: 1001 }));
    assert_eq!(contract::query(&pool, QueryMsg::EndHeight), Ok(QueryAnswer::EndHeight { height: 1000 }));
    assert_eq!(
        contract::query(&pool, QueryMsg::ContractStatus),
        Ok(QueryAnswer::ContractStatus { is_stopped: false })
    );
    assert_eq!(
        contract::query(&pool, QueryMsg::RewardToken),
        Ok(QueryAnswer::RewardToken {
            token: SecretContract { address: "scrt".to_string(), contract_hash: "1".to_string() }
        })
    );
    assert_eq!(
        contract::query(&pool, QueryMsg::IncentivizedToken),
        Ok(QueryAnswer::IncentivizedToken {
            token: SecretContract { address: "eth".to_string(), contract_hash: "2".to_string() }
        })
    );
    assert_eq!(
        contract::query(&pool, QueryMsg::RewardPoolBalance),
        Ok(QueryAnswer::RewardPoolBalance { balance: 0 })
    );
    assert_eq!(
        contract::query(&pool, QueryMsg::TokenInfo),
        Ok(QueryAnswer::TokenInfo {
            name: "ETH Bridge Rewards".to_string(),
            symbol: "ETH-RWRDS".to_string(),
            decimals: 1,
            total_supply: None,
        })
    );
}

#[test]
fn rewards_are_conserved() {
    let mut pool = init_helper(1000);
    let mut paid = 0;
    let mut funded = 0;
    let steps: Vec<(&str, u64, LPStakingHandleMsg)> = vec![
        ("scrt", 1, rewards_msg("funder", 4_000_003)),
        ("eth", 2, deposit_msg("A", 7)),
        ("eth", 10, deposit_msg("B", 13)),
        ("eth", 100, deposit_msg("A", 3)),
        ("B", 333, LPStakingHandleMsg::Redeem { amount: Some(4_000_000_000_000) }),
        ("scrt", 400, rewards_msg("funder", 1_500_000)),
        ("eth", 401, deposit_msg("C", 1)),
        ("admin", 700, LPStakingHandleMsg::SetDeadline { block: 1200 }),
        ("A", 900, LPStakingHandleMsg::Redeem { amount: None }),
        ("B", 1200, LPStakingHandleMsg::Redeem { amount: None }),
        ("C", 1300, LPStakingHandleMsg::Redeem { amount: None }),
    ];
    let count = steps.len() as u128;
    for (sender, block, msg) in steps {
        funded += extract_reward_deposit(&msg).saturating_sub(1_000_000);
        let response = handle(&mut pool, mock_env(sender, block), msg).unwrap();
        paid += reward_paid(&response);
    }
    assert_eq!(funded, 3_000_003 + 500_000);
    assert_eq!(pool.reward_pool.inc_token_supply, 0);
    // Nothing is made: what was paid and what is left is no more than what came in.
    assert!(paid + pool.reward_pool.pending_rewards <= funded);
    // And little is lost: less than a unit for every claim that was rounded.
    assert!(paid + pool.reward_pool.pending_rewards + 2 * count >= funded);
}

#[test]
fn accumulator_and_settled_block_never_go_back() {
    let mut pool = init_helper(1000);
    let steps: Vec<(&str, u64, LPStakingHandleMsg)> = vec![
        ("scrt", 5, rewards_msg("funder", 9_000_000)),
        ("eth", 6, deposit_msg("A", 50)),
        ("eth", 3, deposit_msg("B", 50)),
        ("A", 300, LPStakingHandleMsg::Redeem { amount: Some(20_000_000_000_000) }),
        ("admin", 100, LPStakingHandleMsg::StopContract),
        ("B", 200, LPStakingHandleMsg::EmergencyRedeem),
        ("admin", 100, LPStakingHandleMsg::ResumeContract),
        ("eth", 2000, deposit_msg("B", 1)),
        ("A", 5000, LPStakingHandleMsg::Redeem { amount: None }),
        ("eth", 7, deposit_msg("A", 1)),
    ];
    let mut before = pool.reward_pool;
    for (sender, block, msg) in steps {
        handle(&mut pool, mock_env(sender, block), msg).unwrap();
        assert!(pool.reward_pool.acc_reward_per_share >= before.acc_reward_per_share);
        assert!(pool.reward_pool.last_reward_block >= before.last_reward_block);
        assert!(pool.reward_pool.last_reward_block <= pool.config.deadline);
        before = pool.reward_pool;
    }
    assert_eq!(pool.reward_pool.last_reward_block, 1000);
    assert_eq!(pool.reward_pool.pending_rewards, 0);
}

#[test]
fn small_reward_deposit_is_mostly_dust() {
    let mut pool = init_helper(1000);
    // Of 1_010_000 a million is withheld: ten thousand are left to vest.
    handle(&mut pool, mock_env("scrt", 1), rewards_msg("funder", 1_010_000)).unwrap();
    assert_eq!(pool.reward_pool.pending_rewards, 10_000);
    handle(&mut pool, mock_env("eth", 2), deposit_msg("U", 100)).unwrap();
    let response = handle(
        &mut pool,
        mock_env("U", 1000),
        LPStakingHandleMsg::Redeem { amount: None },
    )
    .unwrap();
    assert_eq!(stake_returned(&response), 100 * 1_000_000_000_000);
    assert_eq!(reward_paid(&response), 10_000);
}
