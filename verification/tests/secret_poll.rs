use scrt_finance::error::{ContractError, ErrorKind};
use scrt_finance::secret_poll::contract::{self, init};
use scrt_finance::secret_poll::msg::InitMsg;
use scrt_finance::secret_poll::state::{PollConfig, PollMetadata, SecretPoll, Vote};
use scrt_finance::types::{BalanceQuery, Env, LogAttribute, ResponseStatus, SecretContract};

fn env(sender: &str) -> Env {
    Env {
        sender: sender.to_string(),
        block_height: 3,
        block_time: 1_571_797_419,
        contract_address: "poll".to_string(),
        contract_code_hash: "poll hash".to_string(),
    }
}

fn init_msg(choices: Vec<String>) -> InitMsg {
    InitMsg {
        metadata: PollMetadata {
            title: "title".to_string(),
            description: "description".to_string(),
            author: "author".to_string(),
        },
        config: PollConfig { duration: Some(100), quorum: Some(33), min_threshold: None },
        choices,
        staking_pool: SecretContract { address: "pool".to_string(), contract_hash: "pool hash".to_string() },
    }
}

fn new_poll() -> SecretPoll {
    let (poll, response) = init(
        &env("owner"),
        init_msg(vec!["yes".to_string(), "no".to_string(), "abstain".to_string()]),
    )
    .unwrap();
    assert!(response.messages.is_empty());
    poll
}

#[test]
fn choices_are_numbered_from_one() {
    let poll = new_poll();
    assert_eq!(poll.owner, "owner");
    assert_eq!(
        poll.choices,
        vec![(1, "yes".to_string()), (2, "no".to_string()), (3, "abstain".to_string())]
    );
    assert_eq!(poll.tally, vec![0, 0, 0]);
    assert_eq!(poll.votes.len(), 0);
}

#[test]
fn too_many_choices_are_refused() {
    let choices = |n: usize| (0..n).map(|i| format!("choice {}", i)).collect::<Vec<String>>();
    let (poll, _) = init(&env("owner"), init_msg(choices(254))).unwrap();
    assert_eq!(poll.choices.len(), 254);
    assert_eq!(poll.choices[253].0, 254);
    match init(&env("owner"), init_msg(choices(255))) {
        Err(error) => {
            assert_eq!(error, ContractError::TooManyChoices);
            assert_eq!(error.kind(), ErrorKind::InvalidInput);
            assert_eq!(error.message(), "the number of choices for a poll cannot exceed 254");
        }
        Ok(_) => panic!("255 choices were accepted"),
    }
}

#[test]
fn votes_are_tallied_by_voting_power() {
    let mut poll = new_poll();
    let response = contract::vote(&mut poll, &env("alice"), 2, &BalanceQuery::Balance(70)).unwrap();
    assert_eq!(response.data, Some(ResponseStatus::Success));
    assert_eq!(
        response.log,
        vec![LogAttribute { key: "voted".to_string(), value: "alice".to_string() }]
    );
    contract::vote(&mut poll, &env("bob"), 2, &BalanceQuery::Balance(5)).unwrap();
    contract::vote(&mut poll, &env("carol"), 3, &BalanceQuery::Balance(9)).unwrap();
    assert_eq!(poll.tally, vec![0, 75, 9]);
    assert_eq!(poll.votes.get(&"alice".to_string()), Some(&Vote { choice: 2, voting_power: 70 }));
    assert_eq!(poll.votes.get(&"carol".to_string()), Some(&Vote { choice: 3, voting_power: 9 }));
    assert_eq!(poll.votes.get(&"dave".to_string()), None);
}

#[test]
fn votes_that_cannot_be_counted_change_nothing() {
    let mut poll = new_poll();
    contract::vote(&mut poll, &env("alice"), 1, &BalanceQuery::Balance(u128::MAX)).unwrap();

    for choice in [0u8, 4, 255] {
        let refused = contract::vote(&mut poll, &env("bob"), choice, &BalanceQuery::Balance(1)).unwrap_err();
        assert_eq!(refused, ContractError::UnknownChoice { choice });
        assert_eq!(refused.kind(), ErrorKind::InvalidInput);
    }
    assert_eq!(
        ContractError::UnknownChoice { choice: 4 }.message(),
        "choice 4 does not exist in this poll"
    );
    let refused = contract::vote(&mut poll, &env("bob"), 1, &BalanceQuery::Failed("wrong key".to_string()));
    assert_eq!(refused, Err(ContractError::BalanceQueryFailed { reason: "wrong key".to_string() }));
    let refused = contract::vote(&mut poll, &env("bob"), 1, &BalanceQuery::Balance(1));
    assert_eq!(refused, Err(ContractError::Arithmetic));

    assert_eq!(poll.tally, vec![u128::MAX, 0, 0]);
    assert_eq!(poll.votes.len(), 1);
    assert_eq!(poll.votes.get(&"bob".to_string()), None);
}

#[test]
fn a_stored_vote_replaces_the_earlier_one() {
    let mut poll = new_poll();
    contract::store_vote(&mut poll, "alice".to_string(), 1, 10);
    contract::store_vote(&mut poll, "alice".to_string(), 3, 20);
    assert_eq!(poll.votes.len(), 1);
    assert_eq!(poll.votes.get(&"alice".to_string()), Some(&Vote { choice: 3, voting_power: 20 }));
    assert_eq!(poll.tally, vec![0, 0, 0]);
}
