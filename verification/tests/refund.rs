//! Refunds and hand-overs, with the chain's answers given by hand.

use cosmwasm_std::{BankMsg, Binary, Coin, CosmosMsg, StdError, SubMsg, Uint128, WasmMsg};
use trapdoor::error::ContractError;
use trapdoor::execute::{refund, transfer_ownership, Context};
use trapdoor::machine::{BalanceQuery, RefundRun, Step};
use trapdoor::msg::RefundCoin;
use trapdoor::state::State;

fn ctx(owner: &str, sender: &str) -> Context {
    Context {
        state: State { owner: owner.to_string() },
        contract: "relay".to_string(),
        sender: sender.to_string(),
    }
}

fn native(denom: &str, amount: Option<u128>) -> RefundCoin {
    RefundCoin::Native { denom: denom.to_string(), amount }
}

fn token(address: &str, amount: Option<u128>) -> RefundCoin {
    RefundCoin::CW20 { address: address.to_string(), amount }
}

fn nft(address: &str, token_id: &str) -> RefundCoin {
    RefundCoin::CW721 { address: address.to_string(), token_id: token_id.to_string() }
}

fn bank(to: &str, amount: u128, denom: &str) -> SubMsg {
    SubMsg::new(CosmosMsg::Bank(BankMsg::Send {
        to_address: to.to_string(),
        amount: vec![Coin { denom: denom.to_string(), amount: Uint128::new(amount) }],
    }))
}

fn wasm(contract: &str, json: &str) -> SubMsg {
    SubMsg::new(CosmosMsg::Wasm(WasmMsg::Execute {
        contract_addr: contract.to_string(),
        msg: Binary::from(json.as_bytes()),
        funds: vec![],
    }))
}

fn done(step: Step) -> Vec<SubMsg> {
    match step {
        Step::Done(outcome) => {
            assert!(outcome.state.is_none());
            assert!(outcome.response.attributes.is_empty());
            assert!(outcome.response.events.is_empty());
            assert!(outcome.response.data.is_none());
            outcome.response.messages
        }
        other => panic!("not done: {:?}", other),
    }
}

fn failed(step: Step) -> ContractError {
    match step {
        Step::Failed(e) => e,
        other => panic!("not failed: {:?}", other),
    }
}

#[test]
fn stated_native_amount_is_paid_without_asking() {
    let step = refund(ctx("alice", "alice"), vec![native("foo", Some(123))]);
    assert_eq!(done(step), vec![bank("alice", 123, "foo")]);
}

#[test]
fn stranger_gets_no_refund_and_nothing_is_asked() {
    let coins = vec![native("foo", None), token("token", None), nft("nfts", "7")];
    let step = refund(ctx("alice", "bob"), coins);
    assert!(matches!(failed(step), ContractError::Unauthorized));
}

#[test]
fn refund_of_no_request_sends_nothing() {
    assert_eq!(done(refund(ctx("alice", "alice"), vec![])), vec![]);
}

#[test]
fn whole_native_balance_is_asked_for_and_paid() {
    let step = refund(ctx("alice", "alice"), vec![native("foo", None)]);
    let wait = match step {
        Step::Balance(wait, BalanceQuery::Native { holder, denom }) => {
            assert_eq!(holder, "relay");
            assert_eq!(denom, "foo");
            wait
        }
        other => panic!("no balance asked: {:?}", other),
    };
    assert_eq!(done(wait.resume(Ok(377))), vec![bank("alice", 377, "foo")]);
}

#[test]
fn zero_amounts_are_not_left_out() {
    let step = refund(ctx("alice", "alice"), vec![native("foo", Some(0)), native("bar", None)]);
    let wait = match step {
        Step::Balance(wait, _) => wait,
        other => panic!("no balance asked: {:?}", other),
    };
    assert_eq!(done(wait.resume(Ok(0))), vec![bank("alice", 0, "foo"), bank("alice", 0, "bar")]);
}

#[test]
fn failed_balance_query_fails_the_refund() {
    let step = refund(ctx("alice", "alice"), vec![native("foo", Some(1)), native("bar", None)]);
    let wait = match step {
        Step::Balance(wait, _) => wait,
        other => panic!("no balance asked: {:?}", other),
    };
    match failed(wait.resume(Err(StdError::generic_err("no such bank")))) {
        ContractError::BalanceQueryFailure(e) => assert_eq!(e, StdError::generic_err("no such bank")),
        other => panic!("wrong error: {:?}", other),
    }
}

#[test]
fn stated_token_amount_needs_only_the_address() {
    let step = refund(ctx("alice", "alice"), vec![token("Token", Some(5))]);
    let wait = match step {
        Step::Validate(wait, address) => {
            assert_eq!(address, "Token");
            wait
        }
        other => panic!("no address asked: {:?}", other),
    };
    // the contract called is the address in the form the chain gave back
    let sent = done(wait.resume(Ok("token".to_string())));
    assert_eq!(sent, vec![wasm("token", r#"{"transfer":{"recipient":"alice","amount":"5"}}"#)]);
}

#[test]
fn whole_token_balance_is_asked_for_after_the_address() {
    let step = refund(ctx("alice", "alice"), vec![token("token", None)]);
    let wait = match step {
        Step::Validate(wait, _) => wait,
        other => panic!("no address asked: {:?}", other),
    };
    let wait = match wait.resume(Ok("token".to_string())) {
        Step::Balance(wait, BalanceQuery::Token { contract, holder }) => {
            assert_eq!(contract, "token");
            assert_eq!(holder, "relay");
            wait
        }
        other => panic!("no balance asked: {:?}", other),
    };
    let sent = done(wait.resume(Ok(42)));
    assert_eq!(sent, vec![wasm("token", r#"{"transfer":{"recipient":"alice","amount":"42"}}"#)]);
}

#[test]
fn failed_token_balance_query_fails_the_refund() {
    let wait = match refund(ctx("alice", "alice"), vec![token("token", None)]) {
        Step::Validate(wait, _) => wait,
        other => panic!("no address asked: {:?}", other),
    };
    let wait = match wait.resume(Ok("token".to_string())) {
        Step::Balance(wait, _) => wait,
        other => panic!("no balance asked: {:?}", other),
    };
    let e = failed(wait.resume(Err(StdError::generic_err("no such contract"))));
    assert!(matches!(e, ContractError::BalanceQueryFailure(_)));
}

#[test]
fn rejected_token_address_fails_the_refund() {
    let step = refund(ctx("alice", "alice"), vec![native("foo", Some(1)), token("x", Some(5))]);
    let wait = match step {
        Step::Validate(wait, _) => wait,
        other => panic!("no address asked: {:?}", other),
    };
    match failed(wait.resume(Err(StdError::generic_err("too short")))) {
        ContractError::InvalidAddress(e) => assert_eq!(e, StdError::generic_err("too short")),
        other => panic!("wrong error: {:?}", other),
    }
}

#[test]
fn single_token_is_transferred_by_its_id() {
    let step = refund(ctx("alice", "alice"), vec![nft("nfts", "7")]);
    let wait = match step {
        Step::Validate(wait, address) => {
            assert_eq!(address, "nfts");
            wait
        }
        other => panic!("no address asked: {:?}", other),
    };
    let sent = done(wait.resume(Ok("nfts".to_string())));
    assert_eq!(sent, vec![wasm("nfts", r#"{"transfer_nft":{"recipient":"alice","token_id":"7"}}"#)]);
}

#[test]
fn rejected_nft_address_fails_the_refund() {
    let wait = match refund(ctx("alice", "alice"), vec![nft("nfts", "7")]) {
        Step::Validate(wait, _) => wait,
        other => panic!("no address asked: {:?}", other),
    };
    let e = failed(wait.resume(Err(StdError::generic_err("bad"))));
    assert!(matches!(e, ContractError::InvalidAddress(_)));
}

#[test]
fn requests_are_settled_in_their_order() {
    let coins = vec![
        native("foo", Some(1)),
        token("token", None),
        native("bar", None),
        nft("nfts", "7"),
        native("baz", Some(2)),
    ];
    let wait = match refund(ctx("alice", "alice"), coins) {
        Step::Validate(wait, address) => {
            assert_eq!(address, "token");
            wait
        }
        other => panic!("no address asked: {:?}", other),
    };
    let wait = match wait.resume(Ok("token".to_string())) {
        Step::Balance(wait, BalanceQuery::Token { .. }) => wait,
        other => panic!("no token balance asked: {:?}", other),
    };
    let wait = match wait.resume(Ok(10)) {
        Step::Balance(wait, BalanceQuery::Native { denom, .. }) => {
            assert_eq!(denom, "bar");
            wait
        }
        other => panic!("no native balance asked: {:?}", other),
    };
    let wait = match wait.resume(Ok(20)) {
        Step::Validate(wait, address) => {
            assert_eq!(address, "nfts");
            wait
        }
        other => panic!("no address asked: {:?}", other),
    };
    let sent = done(wait.resume(Ok("nfts".to_string())));
    assert_eq!(
        sent,
        vec![
            bank("alice", 1, "foo"),
            wasm("token", r#"{"transfer":{"recipient":"alice","amount":"10"}}"#),
            bank("alice", 20, "bar"),
            wasm("nfts", r#"{"transfer_nft":{"recipient":"alice","token_id":"7"}}"#),
            bank("alice", 2, "baz"),
        ]
    );
}

#[test]
fn run_records_a_built_transfer_and_goes_on() {
    let run = RefundRun::new("alice".to_string(), "relay".to_string(), vec![token("t", Some(1)), native("foo", Some(3))]);
    assert!(run.is_pending());
    let built = CosmosMsg::Bank(BankMsg::Send { to_address: "carol".to_string(), amount: vec![] });
    let sent = done(run.settle(Ok(built.clone())));
    assert_eq!(sent, vec![SubMsg::new(built), bank("alice", 3, "foo")]);
}

#[test]
fn run_gives_up_on_a_transfer_that_could_not_be_built() {
    let run = RefundRun::new("alice".to_string(), "relay".to_string(), vec![nft("nfts", "7")]);
    match failed(run.settle(Err(StdError::generic_err("cannot encode")))) {
        ContractError::Std(e) => assert_eq!(e, StdError::generic_err("cannot encode")),
        other => panic!("wrong error: {:?}", other),
    }
}

#[test]
fn run_without_requests_is_not_pending() {
    let run = RefundRun::new("alice".to_string(), "relay".to_string(), vec![]);
    assert!(!run.is_pending());
    assert_eq!(done(run.advance()), vec![]);
}

#[test]
fn owner_hands_the_relay_over() {
    let wait = match transfer_ownership(ctx("alice", "alice"), "Bob".to_string()) {
        Step::Validate(wait, address) => {
            assert_eq!(address, "Bob");
            wait
        }
        other => panic!("no address asked: {:?}", other),
    };
    match wait.resume(Ok("bob".to_string())) {
        Step::Done(outcome) => {
            assert_eq!(outcome.state.unwrap().owner, "bob");
            assert!(outcome.response.messages.is_empty());
            assert!(outcome.response.attributes.is_empty());
            assert!(outcome.response.events.is_empty());
            assert!(outcome.response.data.is_none());
        }
        other => panic!("not done: {:?}", other),
    }
}

#[test]
fn stranger_cannot_take_the_relay_over() {
    let step = transfer_ownership(ctx("alice", "bob"), "bob".to_string());
    assert!(matches!(failed(step), ContractError::Unauthorized));
}

#[test]
fn rejected_new_owner_leaves_the_record_alone() {
    let wait = match transfer_ownership(ctx("alice", "alice"), "b".to_string()) {
        Step::Validate(wait, _) => wait,
        other => panic!("no address asked: {:?}", other),
    };
    match failed(wait.resume(Err(StdError::generic_err("too short")))) {
        ContractError::InvalidAddress(e) => assert_eq!(e, StdError::generic_err("too short")),
        other => panic!("wrong error: {:?}", other),
    }
}
