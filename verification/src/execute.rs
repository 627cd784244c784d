//! The handlers behind the three commands, and the two callbacks.

use vstd::prelude::*;
use cosmwasm_std::{CosmosMsg, Response};
use crate::chain::{Dispatch, direct, on_success, response_messages, response_is_bare, response_new,
    response_add_messages, response_add_submessage, submsg_reply_on_success};
use crate::error::ContractError;
use crate::machine::{AddressWait, AddressWaitView, RefundRun, RunView, Step, StepView, advanced};
use crate::msg::RefundCoin;
use crate::state::{State, is_owner, authorize};

verus! {

/// The callback tag of a batch that is to be kept.
pub const REPLY_ID_EXECUTE_PASS: u64 = 0;

/// The callback tag of a batch that is to be undone.
pub const REPLY_ID_EXECUTE_FAIL: u64 = 1;

/// What a handler knows of the call it serves.
#[derive(Debug)]
pub struct Context {
    /// The record as it stands when the call comes in.
    pub state: State,
    /// The relay's own address.
    pub contract: String,
    /// Who makes the call.
    pub sender: String,
}

impl Context {
    /// Whether the caller is the owner.
    pub open spec fn authorized(self) -> bool {
        is_owner(self.state, self.sender@)
    }
}

/// The tag under which the last message of a batch reports its success.
pub open spec fn reply_id(fail: bool) -> u64 {
    if fail {
        REPLY_ID_EXECUTE_FAIL
    } else {
        REPLY_ID_EXECUTE_PASS
    }
}

/// How a batch is laid out for the chain: every message but the last goes
/// out directly, in the order given; the last one reports its success, and
/// only its success, under the tag chosen by `fail`.
pub open spec fn batch(msgs: Seq<CosmosMsg>, fail: bool) -> Seq<Dispatch> {
    Seq::new(
        msgs.len(),
        |i: int|
            if i + 1 < msgs.len() {
                direct(msgs[i])
            } else {
                on_success(msgs[i], reply_id(fail))
            },
    )
}

/// Forwards a batch of messages for the owner.
///
/// Anyone else is turned away before the batch is looked at; an empty batch
/// is refused; otherwise the response holds exactly `batch(msgs, fail)`.
pub fn execute(ctx: Context, msgs: Vec<CosmosMsg>, fail: bool) -> (r: Result<Response, ContractError>)
    ensures
        !ctx.authorized() ==> r == Err::<Response, ContractError>(ContractError::Unauthorized),
        ctx.authorized() && msgs@.len() == 0 ==> r == Err::<Response, ContractError>(
            ContractError::EmptyBatch,
        ),
        ctx.authorized() && msgs@.len() > 0 ==> (r matches Ok(res) && response_messages(res)
            == batch(msgs@, fail) && response_is_bare(res)),
{
    if authorize(&ctx.state, &ctx.sender).is_err() {
        return Err(ContractError::Unauthorized);
    }
    let mut rest = msgs;
    match rest.pop() {
        None => Err(ContractError::EmptyBatch),
        Some(last) => {
            let id: u64 = if fail {
                REPLY_ID_EXECUTE_FAIL
            } else {
                REPLY_ID_EXECUTE_PASS
            };
            let res = response_add_messages(response_new(), rest);
            let res = response_add_submessage(res, submsg_reply_on_success(last, id));
            assert(response_messages(res) =~= batch(msgs@, fail));
            Ok(res)
        },
    }
}

/// The commit callback: succeeds with an empty response, so that the batch
/// stands.
pub fn execute_reply_pass() -> (r: Result<Response, ContractError>)
    ensures
        r matches Ok(res) && response_messages(res) == Seq::<Dispatch>::empty() && response_is_bare(
            res,
        ),
{
    Ok(response_new())
}

/// The abort callback: fails, always, so that the chain undoes the batch.
pub fn execute_reply_fail() -> (r: Result<Response, ContractError>)
    ensures
        r == Err::<Response, ContractError>(ContractError::OrchestratedFailure),
{
    Err(ContractError::OrchestratedFailure)
}

/// Where a refund of `coins` stands before the chain has been asked
/// anything: refused for anyone but the owner; for the owner, as far as a run
/// over all the requests gets by itself, paying the owner out of the relay's
/// own holdings.
pub open spec fn refund_begun(ctx: Context, coins: Seq<RefundCoin>) -> StepView {
    if ctx.authorized() {
        advanced(
            RunView {
                owner: ctx.state.owner@,
                holder: ctx.contract@,
                coins,
                next: 0,
                sent: Seq::empty(),
            },
        )
    } else {
        StepView::Failed(ContractError::Unauthorized)
    }
}

/// Pays the relay's holdings out to the owner, one transfer for each request
/// and in the order of the requests.
///
/// Anyone but the owner is turned away before anything is asked or built.
pub fn refund(ctx: Context, coins: Vec<RefundCoin>) -> (step: Step)
    ensures
        step@ == refund_begun(ctx, coins@),
{
    if authorize(&ctx.state, &ctx.sender).is_err() {
        return Step::Failed(ContractError::Unauthorized);
    }
    let Context { state, contract, sender: _ } = ctx;
    RefundRun::new(state.owner, contract, coins).advance()
}

/// Where a hand-over to `new_owner` stands before the chain has been asked
/// anything: refused for anyone but the owner; for the owner, waiting for the
/// chain's word on the new address.
pub open spec fn transfer_begun(ctx: Context, new_owner: Seq<char>) -> StepView {
    if ctx.authorized() {
        StepView::Validate(AddressWaitView::Owner, new_owner)
    } else {
        StepView::Failed(ContractError::Unauthorized)
    }
}

/// Hands the relay over to `new_owner`, once the chain has accepted the
/// address.
///
/// The caller is checked first; the record changes only in the outcome of the
/// finished operation.
pub fn transfer_ownership(ctx: Context, new_owner: String) -> (step: Step)
    ensures
        step@ == transfer_begun(ctx, new_owner@),
{
    if authorize(&ctx.state, &ctx.sender).is_err() {
        return Step::Failed(ContractError::Unauthorized);
    }
    Step::Validate(AddressWait::for_owner(), new_owner)
}

} // verus!
