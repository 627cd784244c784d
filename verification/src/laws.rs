//! What holds of the relay as a whole, proved from the contracts of its
//! operations.

use vstd::prelude::*;
use cosmwasm_std::{CosmosMsg, StdError};
use crate::chain::{Dispatch, ReplyWhen, direct, bank_send, cw20_transfer, cw721_transfer};
use crate::contract::{begun, replied};
use crate::error::ContractError;
use crate::execute::{Context, batch, refund_begun, transfer_begun};
use crate::machine::{AddressWaitView, BalanceQueryView, RunView, StepView, advanced, after_address,
    after_balance};
use crate::msg::{ExecuteMsg, RefundCoin};
use crate::state::{State, is_owner};

verus! {

/// Nobody but the owner gets anything done: whatever the command, a call by
/// anyone else ends at once as unauthorized, with nothing to send, nothing to
/// store and nothing asked of the chain.
pub proof fn stranger_is_turned_away(ctx: Context, msg: ExecuteMsg)
    requires
        !ctx.authorized(),
    ensures
        begun(ctx, msg) == StepView::Failed(ContractError::Unauthorized),
{
}

/// An empty batch from the owner is refused as empty, with the flag set or
/// not.
pub proof fn empty_batch_is_refused(ctx: Context, msgs: Vec<CosmosMsg>, fail: bool)
    requires
        ctx.authorized(),
        msgs@.len() == 0,
    ensures
        begun(ctx, ExecuteMsg::Execute(msgs, fail)) == StepView::Failed(ContractError::EmptyBatch),
{
}

/// A batch from the owner goes out whole and in order, and only its last
/// message asks for a callback.
pub proof fn batch_keeps_every_message(ctx: Context, msgs: Vec<CosmosMsg>, fail: bool)
    requires
        ctx.authorized(),
        msgs@.len() > 0,
    ensures
        begun(ctx, ExecuteMsg::Execute(msgs, fail)) == (StepView::Done {
            messages: batch(msgs@, fail),
            bare: true,
            state: None,
        }),
        batch(msgs@, fail).len() == msgs@.len(),
        forall|i: int| 0 <= i < msgs@.len() ==> (#[trigger] batch(msgs@, fail)[i]).msg == msgs@[i],
        forall|i: int|
            0 <= i < msgs@.len() - 1 ==> (#[trigger] batch(msgs@, fail)[i]).reply_on
                == ReplyWhen::Never,
        batch(msgs@, fail)[msgs@.len() - 1].reply_on == ReplyWhen::Success,
{
}

/// Whether the chain calls back after a message: always, or on the outcome
/// the message asked for.
pub open spec fn calls_back(d: Dispatch, ok: bool) -> bool {
    match d.reply_on {
        ReplyWhen::Always => true,
        ReplyWhen::Success => ok,
        ReplyWhen::Error => !ok,
        ReplyWhen::Never => false,
    }
}

/// Whether a call survives one of its messages, by the chain's rules: a
/// message without a callback must succeed, and a callback must succeed
/// whenever it is made.
pub open spec fn survives(d: Dispatch, ok: bool) -> bool {
    if calls_back(d, ok) {
        replied(d.id) is None
    } else {
        ok
    }
}

/// Whether the chain keeps what a call has done, where `ok[i]` says whether
/// its message `i` succeeds: the call must survive every message; if it does
/// not, the chain undoes all of it.
pub open spec fn kept(messages: Seq<Dispatch>, ok: Seq<bool>) -> bool {
    forall|i: int| 0 <= i < messages.len() ==> survives(#[trigger] messages[i], ok[i])
}

/// The trapdoor: a batch sent with the flag set is undone, whatever its
/// messages do.
pub proof fn flagged_batch_is_undone(msgs: Seq<CosmosMsg>, ok: Seq<bool>)
    requires
        msgs.len() > 0,
        ok.len() == msgs.len(),
    ensures
        !kept(batch(msgs, true), ok),
{
    let last = msgs.len() - 1;
    assert(!survives(batch(msgs, true)[last], ok[last]));
}

/// A batch sent without the flag is kept if every one of its messages
/// succeeds, and only then.
pub proof fn plain_batch_is_kept_on_success(msgs: Seq<CosmosMsg>, ok: Seq<bool>)
    requires
        msgs.len() > 0,
        ok.len() == msgs.len(),
    ensures
        kept(batch(msgs, false), ok) <==> (forall|i: int| 0 <= i < msgs.len() ==> #[trigger] ok[i]),
{
    if kept(batch(msgs, false), ok) {
        assert forall|i: int| 0 <= i < msgs.len() implies #[trigger] ok[i] by {
            assert(survives(batch(msgs, false)[i], ok[i]));
        }
    }
}

/// A batch whose last message fails is undone, flag or no flag, and no
/// callback is ever made: the only message that asks for one asks for it on
/// success.
pub proof fn failed_last_message_fails_the_batch(msgs: Seq<CosmosMsg>, fail: bool, ok: Seq<bool>)
    requires
        msgs.len() > 0,
        ok.len() == msgs.len(),
        !ok[msgs.len() - 1],
    ensures
        !kept(batch(msgs, fail), ok),
        forall|i: int| 0 <= i < msgs.len() ==> !calls_back(#[trigger] batch(msgs, fail)[i], ok[i]),
{
    let last = msgs.len() - 1;
    assert(!survives(batch(msgs, fail)[last], ok[last]));
}

/// The owner on record once an operation has come to `step`: the one in the
/// outcome if the operation ended with a record to store, else the one
/// before.
pub open spec fn owner_after(before: Seq<char>, step: StepView) -> Seq<char> {
    match step {
        StepView::Done { state: Some(owner), .. } => owner,
        _ => before,
    }
}

/// A hand-over by the owner, to an address the chain accepts, puts the
/// accepted address on record: from then on that address passes the guard,
/// and the former owner, unless it is the same address, does not.
pub proof fn transfer_moves_the_ownership(ctx: Context, new_owner: Seq<char>, accepted: String, later: State)
    requires
        ctx.authorized(),
        later.owner@ == owner_after(
            ctx.state.owner@,
            after_address(AddressWaitView::Owner, Ok(accepted)),
        ),
    ensures
        transfer_begun(ctx, new_owner) == StepView::Validate(AddressWaitView::Owner, new_owner),
        later.owner@ == accepted@,
        forall|sender: Seq<char>| is_owner(later, sender) <==> sender == accepted@,
        ctx.state.owner@ != accepted@ ==> !is_owner(later, ctx.state.owner@),
{
}

/// A hand-over that does not go through leaves the owner as it was: one
/// attempted by anyone but the owner, and one to an address the chain
/// rejects.
pub proof fn failed_transfer_changes_nothing(ctx: Context, new_owner: Seq<char>, rejection: StdError)
    ensures
        !ctx.authorized() ==> owner_after(ctx.state.owner@, transfer_begun(ctx, new_owner))
            == ctx.state.owner@,
        owner_after(ctx.state.owner@, after_address(AddressWaitView::Owner, Err(rejection)))
            == ctx.state.owner@,
{
}

/// What the chain would answer, whatever is asked.
pub struct Chain {
    /// The validated form of an address, or the rejection.
    pub validate: spec_fn(Seq<char>) -> Result<String, StdError>,
    /// The balance of a holder in a native denomination.
    pub native: spec_fn(Seq<char>, Seq<char>) -> Result<u128, StdError>,
    /// The balance of a holder at a token contract.
    pub token: spec_fn(Seq<char>, Seq<char>) -> Result<u128, StdError>,
}

/// The amount to pay out: the one asked for, else the whole balance.
pub open spec fn amount_or(amount: Option<u128>, balance: Result<u128, StdError>) -> Result<
    u128,
    StdError,
> {
    match amount {
        Some(amount) => Ok(amount),
        None => balance,
    }
}

/// The transfer that settles one request on a given chain, or why there is
/// none. The recipient is the owner in every case.
pub open spec fn transfer_for(owner: Seq<char>, holder: Seq<char>, coin: RefundCoin, chain: Chain) -> Result<
    CosmosMsg,
    ContractError,
> {
    match coin {
        RefundCoin::Native { denom, amount } => match amount_or(
            amount,
            (chain.native)(holder, denom@),
        ) {
            Err(e) => Err(ContractError::BalanceQueryFailure(e)),
            Ok(amount) => Ok(bank_send(owner, denom@, amount)),
        },
        RefundCoin::CW20 { address, amount } => match (chain.validate)(address@) {
            Err(e) => Err(ContractError::InvalidAddress(e)),
            Ok(contract) => match amount_or(amount, (chain.token)(contract@, holder)) {
                Err(e) => Err(ContractError::BalanceQueryFailure(e)),
                Ok(amount) => match cw20_transfer(contract@, owner, amount) {
                    Err(e) => Err(ContractError::Std(e)),
                    Ok(msg) => Ok(msg),
                },
            },
        },
        RefundCoin::CW721 { address, token_id } => match (chain.validate)(address@) {
            Err(e) => Err(ContractError::InvalidAddress(e)),
            Ok(contract) => match cw721_transfer(contract@, owner, token_id@) {
                Err(e) => Err(ContractError::Std(e)),
                Ok(msg) => Ok(msg),
            },
        },
    }
}

/// The end of a refund on a given chain: the requests are settled one by one
/// and in order; the first that cannot be settled fails the whole refund; if
/// all can, one direct message goes out for each.
pub open spec fn refunded(run: RunView, chain: Chain) -> StepView
    decreases run.coins.len() - run.next,
{
    if 0 <= run.next < run.coins.len() {
        match transfer_for(run.owner, run.holder, run.coins[run.next], chain) {
            Err(e) => StepView::Failed(e),
            Ok(msg) => refunded(run.with(msg), chain),
        }
    } else {
        StepView::Done { messages: run.sent, bare: true, state: None }
    }
}

/// The step after the chain has answered the question of `step`; a step that
/// asks nothing stays as it is.
pub open spec fn answered(step: StepView, chain: Chain) -> StepView {
    match step {
        StepView::Validate(wait, address) => after_address(wait, (chain.validate)(address)),
        StepView::Balance(wait, BalanceQueryView::Native { holder, denom }) => after_balance(
            wait,
            (chain.native)(holder, denom),
        ),
        StepView::Balance(wait, BalanceQueryView::Token { contract, holder }) => after_balance(
            wait,
            (chain.token)(contract, holder),
        ),
        _ => step,
    }
}

/// The step after the chain has answered up to `rounds` questions in a row.
pub open spec fn driven(step: StepView, chain: Chain, rounds: nat) -> StepView
    decreases rounds,
{
    if rounds == 0 {
        step
    } else {
        driven(answered(step, chain), chain, (rounds - 1) as nat)
    }
}

/// Whether a step is an end: nothing is asked.
pub open spec fn is_end(step: StepView) -> bool {
    step is Done || step is Failed
}

proof fn end_stays(step: StepView, chain: Chain, rounds: nat)
    requires
        is_end(step),
    ensures
        driven(step, chain, rounds) == step,
    decreases rounds,
{
    if rounds > 0 {
        end_stays(step, chain, (rounds - 1) as nat);
    }
}

proof fn more_rounds_change_nothing(step: StepView, chain: Chain, rounds: nat, more: nat)
    requires
        is_end(driven(step, chain, rounds)),
    ensures
        driven(step, chain, rounds + more) == driven(step, chain, rounds),
    decreases rounds,
{
    if rounds == 0 {
        end_stays(step, chain, more);
    } else {
        more_rounds_change_nothing(answered(step, chain), chain, (rounds - 1) as nat, more);
    }
}

/// A refund, driven by the chain's answers, ends as settling the requests one
/// by one ends; no request takes more than two questions.
pub proof fn refund_settles_each_request(run: RunView, chain: Chain)
    requires
        0 <= run.next <= run.coins.len(),
    ensures
        is_end(refunded(run, chain)),
        driven(advanced(run), chain, (2 * (run.coins.len() - run.next)) as nat) == refunded(
            run,
            chain,
        ),
    decreases run.coins.len() - run.next,
{
    let rounds = (2 * (run.coins.len() - run.next)) as nat;
    if run.next < run.coins.len() {
        let fewer = (rounds - 2) as nat;
        let first = advanced(run);
        match transfer_for(run.owner, run.holder, run.coins[run.next], chain) {
            Err(e) => {
                // The failure shows after one answer, or after two.
                let once = answered(first, chain);
                let twice = answered(once, chain);
                assert(driven(first, chain, rounds) == driven(once, chain, (fewer + 1) as nat));
                assert(driven(once, chain, (fewer + 1) as nat) == driven(twice, chain, fewer));
                assert(once == StepView::Failed(e) || twice == StepView::Failed(e));
                assert(twice == StepView::Failed(e));
                end_stays(twice, chain, fewer);
            },
            Ok(msg) => {
                let rest = run.with(msg);
                refund_settles_each_request(rest, chain);
                let once = answered(first, chain);
                let twice = answered(once, chain);
                assert(driven(first, chain, rounds) == driven(once, chain, (fewer + 1) as nat));
                assert(driven(once, chain, (fewer + 1) as nat) == driven(twice, chain, fewer));
                // The run has gone on to the next request after no answer, one or two.
                assert(first == advanced(rest) || once == advanced(rest) || twice == advanced(rest));
                if first == advanced(rest) {
                    more_rounds_change_nothing(first, chain, fewer, 2);
                } else if once == advanced(rest) {
                    more_rounds_change_nothing(once, chain, fewer, 1);
                }
            },
        }
    }
}

/// A refund by the owner, with every question answered by the chain, comes
/// to one transfer to the owner for each request, in the order of the
/// requests and none left out, or to the failure of the first request that
/// cannot be settled.
pub proof fn refund_pays_the_owner(ctx: Context, coins: Seq<RefundCoin>, chain: Chain)
    requires
        ctx.authorized(),
    ensures
        driven(refund_begun(ctx, coins), chain, (2 * coins.len()) as nat) == refunded(
            RunView {
                owner: ctx.state.owner@,
                holder: ctx.contract@,
                coins,
                next: 0,
                sent: Seq::empty(),
            },
            chain,
        ),
{
    refund_settles_each_request(
        RunView {
            owner: ctx.state.owner@,
            holder: ctx.contract@,
            coins,
            next: 0,
            sent: Seq::empty(),
        },
        chain,
    );
}

/// The end of a refund, request by request. Where it ends well, one message
/// stands for each request, none is left out (a request for nothing, or for a
/// balance of nothing, is settled like any other), and each message is the
/// transfer that settles its request. Where it fails, it fails with the error
/// of the first request that cannot be settled.
pub proof fn refund_ends_as_its_requests_do(run: RunView, chain: Chain)
    requires
        0 <= run.next <= run.coins.len(),
        run.sent.len() == run.next,
    ensures
        match refunded(run, chain) {
            StepView::Done { messages, bare, state } => {
                &&& bare
                &&& state is None
                &&& messages.len() == run.coins.len()
                &&& forall|i: int| 0 <= i < run.next ==> messages[i] == run.sent[i]
                &&& forall|i: int|
                    run.next <= i < run.coins.len() ==> #[trigger] transfer_for(
                        run.owner,
                        run.holder,
                        run.coins[i],
                        chain,
                    ) == Ok::<CosmosMsg, ContractError>(messages[i].msg) && messages[i] == direct(
                        messages[i].msg,
                    )
            },
            StepView::Failed(e) => exists|j: int|
                {
                    &&& run.next <= j < run.coins.len()
                    &&& #[trigger] transfer_for(run.owner, run.holder, run.coins[j], chain) == Err::<
                        CosmosMsg,
                        ContractError,
                    >(e)
                    &&& forall|i: int|
                        run.next <= i < j ==> (#[trigger] transfer_for(
                            run.owner,
                            run.holder,
                            run.coins[i],
                            chain,
                        )) is Ok
                },
            _ => false,
        },
    decreases run.coins.len() - run.next,
{
    if run.next < run.coins.len() {
        match transfer_for(run.owner, run.holder, run.coins[run.next], chain) {
            Err(e) => {},
            Ok(msg) => {
                let rest = run.with(msg);
                refund_ends_as_its_requests_do(rest, chain);
                match refunded(rest, chain) {
                    StepView::Failed(e) => {
                        let j = choose|j: int|
                            {
                                &&& rest.next <= j < rest.coins.len()
                                &&& #[trigger] transfer_for(
                                    rest.owner,
                                    rest.holder,
                                    rest.coins[j],
                                    chain,
                                ) == Err::<CosmosMsg, ContractError>(e)
                                &&& forall|i: int|
                                    rest.next <= i < j ==> (#[trigger] transfer_for(
                                        rest.owner,
                                        rest.holder,
                                        rest.coins[i],
                                        chain,
                                    )) is Ok
                            };
                        assert(transfer_for(run.owner, run.holder, run.coins[j], chain) == Err::<
                            CosmosMsg,
                            ContractError,
                        >(e));
                    },
                    StepView::Done { messages, .. } => {
                        assert(messages[run.next] == rest.sent[run.next]);
                    },
                    _ => {},
                }
            },
        }
    }
}

} // verus!
