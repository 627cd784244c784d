//! The entry points and the small parts, on plain values.

use cosmwasm_std::{BankMsg, Binary, CosmosMsg, ReplyOn, SubMsg, WasmMsg};
use trapdoor::contract::{execute, instantiate, query, reply};
use trapdoor::error::ContractError;
use trapdoor::execute::{execute_reply_fail, execute_reply_pass, Context, REPLY_ID_EXECUTE_FAIL, REPLY_ID_EXECUTE_PASS};
use trapdoor::helpers::TrapdoorContract;
use trapdoor::machine::Step;
use trapdoor::msg::{ExecuteMsg, InstantiateMsg, QueryMsg, RefundCoin};
use trapdoor::state::{authorize, State};

fn ctx(owner: &str, sender: &str) -> Context {
    Context {
        state: State { owner: owner.to_string() },
        contract: "relay".to_string(),
        sender: sender.to_string(),
    }
}

fn burn() -> CosmosMsg {
    CosmosMsg::Bank(BankMsg::Burn { amount: vec![] })
}

#[test]
fn caller_of_the_set_up_becomes_the_owner() {
    let outcome = instantiate("alice".to_string(), InstantiateMsg {});
    assert_eq!(outcome.state.unwrap().owner, "alice");
    assert!(outcome.response.messages.is_empty());
    assert!(outcome.response.attributes.is_empty());
    assert!(outcome.response.events.is_empty());
    assert!(outcome.response.data.is_none());
}

#[test]
fn guard_passes_the_owner_only() {
    let state = State { owner: "alice".to_string() };
    assert!(authorize(&state, &"alice".to_string()).is_ok());
    assert!(matches!(authorize(&state, &"bob".to_string()), Err(ContractError::Unauthorized)));
    assert!(matches!(authorize(&state, &"Alice".to_string()), Err(ContractError::Unauthorized)));
    assert!(matches!(authorize(&state, &"".to_string()), Err(ContractError::Unauthorized)));
}

#[test]
fn callback_tags_are_zero_and_one() {
    assert_eq!(REPLY_ID_EXECUTE_PASS, 0);
    assert_eq!(REPLY_ID_EXECUTE_FAIL, 1);
}

#[test]
fn commit_callback_succeeds_with_an_empty_response() {
    let res = reply(0).unwrap();
    assert!(res.messages.is_empty());
    assert!(res.attributes.is_empty());
    assert!(res.events.is_empty());
    assert!(res.data.is_none());
    assert!(execute_reply_pass().unwrap().messages.is_empty());
}

#[test]
fn abort_callback_always_fails() {
    assert!(matches!(reply(1), Err(ContractError::OrchestratedFailure)));
    assert!(matches!(execute_reply_fail(), Err(ContractError::OrchestratedFailure)));
}

#[test]
fn unknown_callback_tag_is_an_error_that_names_it() {
    assert!(matches!(reply(2), Err(ContractError::UnknownCallback(2))));
    assert!(matches!(reply(u64::MAX), Err(ContractError::UnknownCallback(u64::MAX))));
}

#[test]
fn every_query_fails() {
    assert!(matches!(query(QueryMsg {}), Err(ContractError::NotImplemented)));
}

#[test]
fn dispatcher_forwards_a_batch() {
    let step = execute(ctx("alice", "alice"), ExecuteMsg::Execute(vec![burn(), burn()], true));
    match step {
        Step::Done(outcome) => {
            assert!(outcome.state.is_none());
            assert_eq!(outcome.response.messages.len(), 2);
            assert_eq!(outcome.response.messages[0], SubMsg::new(burn()));
            assert_eq!(outcome.response.messages[1].id, 1);
            assert_eq!(outcome.response.messages[1].reply_on, ReplyOn::Success);
        }
        other => panic!("not done: {:?}", other),
    }
}

#[test]
fn dispatcher_refuses_an_empty_batch_from_the_owner() {
    for fail in [false, true] {
        let step = execute(ctx("alice", "alice"), ExecuteMsg::Execute(vec![], fail));
        assert!(matches!(step, Step::Failed(ContractError::EmptyBatch)));
    }
}

#[test]
fn dispatcher_turns_a_stranger_away_whatever_the_command() {
    let commands = vec![
        ExecuteMsg::Execute(vec![burn()], false),
        ExecuteMsg::Execute(vec![], false),
        ExecuteMsg::Refund(vec![RefundCoin::Native { denom: "foo".to_string(), amount: None }]),
        ExecuteMsg::Refund(vec![]),
        ExecuteMsg::TransferOwnership("bob".to_string()),
    ];
    for command in commands {
        let step = execute(ctx("alice", "bob"), command);
        assert!(matches!(step, Step::Failed(ContractError::Unauthorized)));
    }
}

#[test]
fn dispatcher_starts_a_refund_and_a_hand_over() {
    let coins = vec![RefundCoin::CW20 { address: "token".to_string(), amount: Some(1) }];
    match execute(ctx("alice", "alice"), ExecuteMsg::Refund(coins)) {
        Step::Validate(_, address) => assert_eq!(address, "token"),
        other => panic!("no address asked: {:?}", other),
    }
    match execute(ctx("alice", "alice"), ExecuteMsg::TransferOwnership("bob".to_string())) {
        Step::Validate(_, address) => assert_eq!(address, "bob"),
        other => panic!("no address asked: {:?}", other),
    }
}

#[test]
fn handle_calls_the_relay_with_the_payload_and_no_funds() {
    let relay = TrapdoorContract("relay".to_string());
    assert_eq!(relay.addr(), "relay");
    let payload = br#"{"transfer_ownership":"bob"}"#.to_vec();
    assert_eq!(
        relay.call(payload.clone()),
        CosmosMsg::Wasm(WasmMsg::Execute {
            contract_addr: "relay".to_string(),
            msg: Binary::from(payload),
            funds: vec![],
        })
    );
}
