//! Operations that need the chain's answers, as a state machine.
//!
//! A refund may need to know whether a text is an address and how large a
//! balance is; handing the relay over needs the former. Neither can be
//! computed here. So an operation runs until it needs an answer, returns the
//! question inside a [`Step`], and goes on when the waiting state it returned
//! is resumed with the answer. The caller does the asking and nothing else.

use vstd::prelude::*;
use cosmwasm_std::{CosmosMsg, Response, StdError};
use crate::chain::{Dispatch, direct, response_messages, response_is_bare, response_new,
    response_add_message, bank_send, cw20_transfer, cw721_transfer, bank_send_msg,
    cw20_transfer_msg, cw721_transfer_msg};
use crate::error::ContractError;
use crate::msg::RefundCoin;
use crate::state::State;

verus! {

/// A balance the chain is asked for.
#[derive(Debug)]
pub enum BalanceQuery {
    /// How much of `denom` the account `holder` has.
    Native { holder: String, denom: String },
    /// How many tokens of the token contract `contract` the account `holder` has.
    Token { contract: String, holder: String },
}

/// A balance query, as the contracts see it.
pub enum BalanceQueryView {
    Native { holder: Seq<char>, denom: Seq<char> },
    Token { contract: Seq<char>, holder: Seq<char> },
}

impl View for BalanceQuery {
    type V = BalanceQueryView;

    open spec fn view(&self) -> BalanceQueryView {
        match *self {
            BalanceQuery::Native { holder, denom } => BalanceQueryView::Native {
                holder: holder@,
                denom: denom@,
            },
            BalanceQuery::Token { contract, holder } => BalanceQueryView::Token {
                contract: contract@,
                holder: holder@,
            },
        }
    }
}

/// How an operation ended: what goes back to the chain, and the record to
/// store if the operation changed it.
#[derive(Debug)]
pub struct Outcome {
    pub response: Response,
    pub state: Option<State>,
}

/// A refund under way, as the contracts see it.
pub struct RunView {
    /// Who is paid.
    pub owner: Seq<char>,
    /// Whose balances are paid out: the relay itself.
    pub holder: Seq<char>,
    /// The requests, in the order given.
    pub coins: Seq<RefundCoin>,
    /// How many requests are settled.
    pub next: int,
    /// The transfers for the settled requests, in order, as they stand in
    /// the response.
    pub sent: Seq<Dispatch>,
}

impl RunView {
    /// Whether a request is still to be settled, and one transfer stands for
    /// each settled one.
    pub open spec fn pending(self) -> bool {
        0 <= self.next < self.coins.len() && self.sent.len() == self.next
    }

    /// The run after `msg` has been recorded for the request at hand.
    pub open spec fn with(self, msg: CosmosMsg) -> RunView {
        RunView { next: self.next + 1, sent: self.sent.push(direct(msg)), ..self }
    }
}

/// What waits for the chain's word on an address, as the contracts see it.
pub enum AddressWaitView {
    /// A hand-over of the relay: the address is the new owner's.
    Owner,
    /// A refund at a request for fungible tokens: the address is the token
    /// contract's.
    Token { run: RunView, amount: Option<u128> },
    /// A refund at a request for a single token: the address is the token
    /// contract's.
    Nft { run: RunView, token_id: Seq<char> },
}

/// What waits for the chain's word on a balance, as the contracts see it.
pub enum BalanceWaitView {
    /// A refund at a request for the whole balance in a native denomination.
    Native { run: RunView, denom: Seq<char> },
    /// A refund at a request for the whole balance at a token contract, whose
    /// address the chain has accepted in the form `contract`.
    Token { run: RunView, contract: Seq<char> },
}

/// A step, as the contracts see it.
pub enum StepView {
    /// Finished: the messages of the response, whether the response holds
    /// nothing else, and the owner to put on record, if the record changes.
    Done { messages: Seq<Dispatch>, bare: bool, state: Option<Seq<char>> },
    /// Given up, with the reason.
    Failed(ContractError),
    /// Waiting for the chain's word on the address.
    Validate(AddressWaitView, Seq<char>),
    /// Waiting for the chain's word on the balance.
    Balance(BalanceWaitView, BalanceQueryView),
}

/// Where a run gets to without asking anything: requests for a stated amount
/// of a native denomination are settled on the spot, the first request of
/// another sort stops the run with its question, and a run with no request
/// left is done, with one direct message for each request.
pub open spec fn advanced(run: RunView) -> StepView
    decreases run.coins.len() - run.next,
{
    if 0 <= run.next < run.coins.len() {
        match run.coins[run.next] {
            RefundCoin::Native { denom, amount: Some(amount) } => advanced(
                run.with(bank_send(run.owner, denom@, amount)),
            ),
            RefundCoin::Native { denom, amount: None } => StepView::Balance(
                BalanceWaitView::Native { run, denom: denom@ },
                BalanceQueryView::Native { holder: run.holder, denom: denom@ },
            ),
            RefundCoin::CW20 { address, amount } => StepView::Validate(
                AddressWaitView::Token { run, amount },
                address@,
            ),
            RefundCoin::CW721 { address, token_id } => StepView::Validate(
                AddressWaitView::Nft { run, token_id: token_id@ },
                address@,
            ),
        }
    } else {
        StepView::Done { messages: run.sent, bare: true, state: None }
    }
}

/// What becomes of a run once the transfer for the request at hand has been
/// built: it goes on with the transfer recorded, or the whole refund fails
/// with the error of the encoding.
pub open spec fn settled(run: RunView, built: Result<CosmosMsg, StdError>) -> StepView {
    match built {
        Ok(msg) => advanced(run.with(msg)),
        Err(e) => StepView::Failed(ContractError::Std(e)),
    }
}

/// What follows the chain's word on an address.
///
/// A rejected address fails the operation. An accepted one becomes the new
/// owner, or the token contract that is called: at once where the amount is
/// stated or a single token is named, after a balance query where it is not.
pub open spec fn after_address(wait: AddressWaitView, validated: Result<String, StdError>) -> StepView {
    match validated {
        Err(e) => StepView::Failed(ContractError::InvalidAddress(e)),
        Ok(address) => match wait {
            AddressWaitView::Owner => StepView::Done {
                messages: Seq::empty(),
                bare: true,
                state: Some(address@),
            },
            AddressWaitView::Token { run, amount: Some(amount) } => settled(
                run,
                cw20_transfer(address@, run.owner, amount),
            ),
            AddressWaitView::Token { run, amount: None } => StepView::Balance(
                BalanceWaitView::Token { run, contract: address@ },
                BalanceQueryView::Token { contract: address@, holder: run.holder },
            ),
            AddressWaitView::Nft { run, token_id } => settled(
                run,
                cw721_transfer(address@, run.owner, token_id),
            ),
        },
    }
}

/// What follows the chain's word on a balance: a failed query fails the
/// refund, and a balance, zero or not, is paid out whole.
pub open spec fn after_balance(wait: BalanceWaitView, balance: Result<u128, StdError>) -> StepView {
    match balance {
        Err(e) => StepView::Failed(ContractError::BalanceQueryFailure(e)),
        Ok(amount) => match wait {
            BalanceWaitView::Native { run, denom } => advanced(
                run.with(bank_send(run.owner, denom, amount)),
            ),
            BalanceWaitView::Token { run, contract } => settled(
                run,
                cw20_transfer(contract, run.owner, amount),
            ),
        },
    }
}

/// A refund under way.
#[derive(Debug)]
pub struct RefundRun {
    owner: String,
    holder: String,
    coins: Vec<RefundCoin>,
    next: usize,
    response: Response,
}

impl View for RefundRun {
    type V = RunView;

    closed spec fn view(&self) -> RunView {
        RunView {
            owner: self.owner@,
            holder: self.holder@,
            coins: self.coins@,
            next: self.next as int,
            sent: response_messages(self.response),
        }
    }
}

impl RefundRun {
    #[verifier::type_invariant]
    spec fn well_formed(self) -> bool {
        &&& self.next <= self.coins.len()
        &&& response_messages(self.response).len() == self.next
        &&& response_is_bare(self.response)
    }

    /// A run that pays `owner` out of the holdings of `holder`, with nothing
    /// settled yet. A run asks for nobody's leave: the guarded way in is
    /// `execute::refund`.
    pub fn new(owner: String, holder: String, coins: Vec<RefundCoin>) -> (run: RefundRun)
        ensures
            run@ == (RunView {
                owner: owner@,
                holder: holder@,
                coins: coins@,
                next: 0,
                sent: Seq::empty(),
            }),
    {
        RefundRun { owner, holder, coins, next: 0, response: response_new() }
    }

    /// Whether a request is still to be settled.
    pub fn is_pending(&self) -> (b: bool)
        ensures
            b == self@.pending(),
    {
        proof {
            use_type_invariant(self);
        }
        self.next < self.coins.len()
    }

    /// Goes on until the chain has to be asked or no request is left.
    pub fn advance(self) -> (step: Step)
        ensures
            step@ == advanced(self@),
    {
        proof {
            use_type_invariant(&self);
        }
        let ghost start = self@;
        let RefundRun { owner, holder, coins, next, response } = self;
        let mut next: usize = next;
        let mut response = response;
        while next < coins.len()
            invariant
                start == self@,
                next <= coins.len(),
                response_messages(response).len() == next,
                response_is_bare(response),
                advanced(start) == advanced(
                    RunView {
                        owner: owner@,
                        holder: holder@,
                        coins: coins@,
                        next: next as int,
                        sent: response_messages(response),
                    },
                ),
            decreases coins.len() - next,
        {
            let ghost here = RunView {
                owner: owner@,
                holder: holder@,
                coins: coins@,
                next: next as int,
                sent: response_messages(response),
            };
            match &coins[next] {
                RefundCoin::Native { denom, amount: Some(amount) } => {
                    let msg = bank_send_msg(owner.clone(), denom.clone(), *amount);
                    response = response_add_message(response, msg);
                    next = next + 1;
                },
                RefundCoin::Native { denom, amount: None } => {
                    let denom = denom.clone();
                    let query = BalanceQuery::Native { holder: holder.clone(), denom: denom.clone() };
                    let run = RefundRun { owner, holder, coins, next, response };
                    assert(run@ == here);
                    return Step::Balance(BalanceWait { stage: BalanceStage::Native { run, denom } }, query);
                },
                RefundCoin::CW20 { address, amount } => {
                    let address = address.clone();
                    let amount = *amount;
                    let run = RefundRun { owner, holder, coins, next, response };
                    assert(run@ == here);
                    return Step::Validate(AddressWait { stage: AddressStage::Token { run, amount } }, address);
                },
                RefundCoin::CW721 { address, token_id } => {
                    let address = address.clone();
                    let token_id = token_id.clone();
                    let run = RefundRun { owner, holder, coins, next, response };
                    assert(run@ == here);
                    return Step::Validate(AddressWait { stage: AddressStage::Nft { run, token_id } }, address);
                },
            }
        }
        Step::Done(Outcome { response, state: None })
    }

    /// Records the transfer built for the request at hand and goes on; or
    /// gives the refund up where the transfer could not be built.
    pub fn settle(self, built: Result<CosmosMsg, StdError>) -> (step: Step)
        requires
            self@.pending(),
        ensures
            step@ == settled(self@, built),
    {
        proof {
            use_type_invariant(&self);
        }
        match built {
            Err(e) => Step::Failed(ContractError::Std(e)),
            Ok(msg) => {
                let RefundRun { owner, holder, coins, next, response } = self;
                let response = response_add_message(response, msg);
                let run = RefundRun { owner, holder, coins, next: next + 1, response };
                assert(run@ == self@.with(msg));
                run.advance()
            },
        }
    }
}

#[derive(Debug)]
pub(crate) enum AddressStage {
    Owner,
    Token { run: RefundRun, amount: Option<u128> },
    Nft { run: RefundRun, token_id: String },
}

/// An operation that waits for the chain's word on an address.
#[derive(Debug)]
pub struct AddressWait {
    stage: AddressStage,
}

impl View for AddressWait {
    type V = AddressWaitView;

    closed spec fn view(&self) -> AddressWaitView {
        match self.stage {
            AddressStage::Owner => AddressWaitView::Owner,
            AddressStage::Token { run, amount } => AddressWaitView::Token { run: run@, amount },
            AddressStage::Nft { run, token_id } => AddressWaitView::Nft {
                run: run@,
                token_id: token_id@,
            },
        }
    }
}

impl AddressWait {
    #[verifier::type_invariant]
    spec fn well_formed(self) -> bool {
        match self.stage {
            AddressStage::Owner => true,
            AddressStage::Token { run, .. } => run@.pending(),
            AddressStage::Nft { run, .. } => run@.pending(),
        }
    }

    /// The wait of an ownership transfer for the new owner's address.
    pub(crate) fn for_owner() -> (wait: AddressWait)
        ensures
            wait@ == AddressWaitView::Owner,
    {
        AddressWait { stage: AddressStage::Owner }
    }

    /// Goes on with the chain's answer: the address in its validated form, or
    /// the chain's refusal.
    pub fn resume(self, validated: Result<String, StdError>) -> (step: Step)
        ensures
            step@ == after_address(self@, validated),
    {
        proof {
            use_type_invariant(&self);
        }
        let address = match validated {
            Err(e) => {
                return Step::Failed(ContractError::InvalidAddress(e));
            },
            Ok(address) => address,
        };
        match self.stage {
            AddressStage::Owner => {
                let response = response_new();
                Step::Done(Outcome { response, state: Some(State { owner: address }) })
            },
            AddressStage::Token { run, amount: Some(amount) } => {
                let built = cw20_transfer_msg(address, run.owner.clone(), amount);
                run.settle(built)
            },
            AddressStage::Token { run, amount: None } => {
                let query = BalanceQuery::Token {
                    contract: address.clone(),
                    holder: run.holder.clone(),
                };
                Step::Balance(BalanceWait { stage: BalanceStage::Token { run, contract: address } }, query)
            },
            AddressStage::Nft { run, token_id } => {
                let built = cw721_transfer_msg(address, run.owner.clone(), token_id);
                run.settle(built)
            },
        }
    }
}

#[derive(Debug)]
pub(crate) enum BalanceStage {
    Native { run: RefundRun, denom: String },
    Token { run: RefundRun, contract: String },
}

/// A refund that waits for the chain's word on a balance.
#[derive(Debug)]
pub struct BalanceWait {
    stage: BalanceStage,
}

impl View for BalanceWait {
    type V = BalanceWaitView;

    closed spec fn view(&self) -> BalanceWaitView {
        match self.stage {
            BalanceStage::Native { run, denom } => BalanceWaitView::Native { run: run@, denom: denom@ },
            BalanceStage::Token { run, contract } => BalanceWaitView::Token {
                run: run@,
                contract: contract@,
            },
        }
    }
}

impl BalanceWait {
    #[verifier::type_invariant]
    spec fn well_formed(self) -> bool {
        match self.stage {
            BalanceStage::Native { run, .. } => run@.pending(),
            BalanceStage::Token { run, .. } => run@.pending(),
        }
    }

    /// Goes on with the chain's answer: the balance, or why there is none.
    pub fn resume(self, balance: Result<u128, StdError>) -> (step: Step)
        ensures
            step@ == after_balance(self@, balance),
    {
        proof {
            use_type_invariant(&self);
        }
        let amount = match balance {
            Err(e) => {
                return Step::Failed(ContractError::BalanceQueryFailure(e));
            },
            Ok(amount) => amount,
        };
        match self.stage {
            BalanceStage::Native { run, denom } => {
                let msg = bank_send_msg(run.owner.clone(), denom, amount);
                run.settle(Ok(msg))
            },
            BalanceStage::Token { run, contract } => {
                let built = cw20_transfer_msg(contract, run.owner.clone(), amount);
                run.settle(built)
            },
        }
    }
}

/// Where an operation stands: at its end, or at a question for the chain.
#[derive(Debug)]
pub enum Step {
    /// Finished.
    Done(Outcome),
    /// Given up: nothing is to be sent and nothing stored.
    Failed(ContractError),
    /// The chain is to validate the address; `AddressWait::resume` takes the
    /// answer.
    Validate(AddressWait, String),
    /// The chain is to report the balance; `BalanceWait::resume` takes the
    /// answer.
    Balance(BalanceWait, BalanceQuery),
}

impl View for Step {
    type V = StepView;

    open spec fn view(&self) -> StepView {
        match *self {
            Step::Done(outcome) => StepView::Done {
                messages: response_messages(outcome.response),
                bare: response_is_bare(outcome.response),
                state: match outcome.state {
                    Some(state) => Some(state.owner@),
                    None => None,
                },
            },
            Step::Failed(e) => StepView::Failed(e),
            Step::Validate(wait, address) => StepView::Validate(wait@, address@),
            Step::Balance(wait, query) => StepView::Balance(wait@, query@),
        }
    }
}

} // verus!
