//! The entry points: set-up, the command dispatcher, the callback dispatcher
//! and the read side.

use vstd::prelude::*;
use cosmwasm_std::Response;
use crate::chain::{Dispatch, response_messages, response_is_bare, response_new};
use crate::error::ContractError;
use crate::execute::{Context, REPLY_ID_EXECUTE_FAIL, REPLY_ID_EXECUTE_PASS, batch, refund_begun,
    transfer_begun};
use crate::machine::{Outcome, Step, StepView};
use crate::msg::{ExecuteMsg, InstantiateMsg, QueryMsg};
use crate::state::State;

verus! {

/// Sets the relay up: whoever makes the call becomes the owner, and nothing
/// is sent.
pub fn instantiate(sender: String, msg: InstantiateMsg) -> (out: Outcome)
    ensures
        out.state matches Some(state) && state.owner@ == sender@,
        response_messages(out.response) == Seq::<Dispatch>::empty(),
        response_is_bare(out.response),
{
    Outcome { response: response_new(), state: Some(State { owner: sender }) }
}

/// Where a command stands before the chain has been asked anything.
pub open spec fn begun(ctx: Context, msg: ExecuteMsg) -> StepView {
    match msg {
        ExecuteMsg::Execute(msgs, fail) => if !ctx.authorized() {
            StepView::Failed(ContractError::Unauthorized)
        } else if msgs@.len() == 0 {
            StepView::Failed(ContractError::EmptyBatch)
        } else {
            StepView::Done { messages: batch(msgs@, fail), bare: true, state: None }
        },
        ExecuteMsg::Refund(coins) => refund_begun(ctx, coins@),
        ExecuteMsg::TransferOwnership(new_owner) => transfer_begun(ctx, new_owner@),
    }
}

/// Routes a command to its handler.
pub fn execute(ctx: Context, msg: ExecuteMsg) -> (step: Step)
    ensures
        step@ == begun(ctx, msg),
{
    match msg {
        ExecuteMsg::Execute(msgs, fail) => match crate::execute::execute(ctx, msgs, fail) {
            Ok(response) => Step::Done(Outcome { response, state: None }),
            Err(e) => Step::Failed(e),
        },
        ExecuteMsg::Refund(coins) => crate::execute::refund(ctx, coins),
        ExecuteMsg::TransferOwnership(new_owner) => crate::execute::transfer_ownership(
            ctx,
            new_owner,
        ),
    }
}

/// What the callback under tag `id` comes to: `None` for success with an
/// empty response, otherwise the error.
pub open spec fn replied(id: u64) -> Option<ContractError> {
    if id == REPLY_ID_EXECUTE_PASS {
        None
    } else if id == REPLY_ID_EXECUTE_FAIL {
        Some(ContractError::OrchestratedFailure)
    } else {
        Some(ContractError::UnknownCallback(id))
    }
}

/// Routes the callback of a batch by its tag: the commit tag succeeds with an
/// empty response, the abort tag fails on purpose, and any other tag is an
/// error that names it.
pub fn reply(id: u64) -> (r: Result<Response, ContractError>)
    ensures
        match r {
            Ok(res) => replied(id) is None && response_messages(res) == Seq::<Dispatch>::empty()
                && response_is_bare(res),
            Err(e) => replied(id) == Some(e),
        },
{
    if id == REPLY_ID_EXECUTE_PASS {
        crate::execute::execute_reply_pass()
    } else if id == REPLY_ID_EXECUTE_FAIL {
        crate::execute::execute_reply_fail()
    } else {
        Err(ContractError::UnknownCallback(id))
    }
}

/// The read side: there is none, so every query fails.
pub fn query(msg: QueryMsg) -> (r: Result<Vec<u8>, ContractError>)
    ensures
        r == Err::<Vec<u8>, ContractError>(ContractError::NotImplemented),
{
    Err(ContractError::NotImplemented)
}

} // verus!
