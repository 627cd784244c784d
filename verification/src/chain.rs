//! The boundary to `cosmwasm_std`, `cw20` and `cw721_base`.
//!
//! Everything in this module is believed, not proved: the types are opaque to
//! the verifier, and each function states what the named outside function
//! does according to its source.

use vstd::prelude::*;
use cosmwasm_std::{Addr, BankMsg, Binary, Coin, CosmosMsg, Empty, Response, StdError, SubMsg, Uint128, WasmMsg};
use cw20::{Cw20Contract, Cw20ExecuteMsg};
use cw721_base::helpers::Cw721Contract;
use std::marker::PhantomData;

verus! {

/// `cosmwasm_std::CosmosMsg`: an instruction for the chain. The relay never
/// looks inside one.
#[verifier::external_type_specification]
#[verifier::external_body]
#[verifier::reject_recursive_types(T)]
pub struct ExCosmosMsg<T>(CosmosMsg<T>);

/// `cosmwasm_std::Empty`, the default custom-message parameter.
#[verifier::external_type_specification]
#[verifier::external_body]
pub struct ExEmpty(Empty);

/// `cosmwasm_std::SubMsg`: a message together with its reply settings.
#[verifier::external_type_specification]
#[verifier::external_body]
#[verifier::reject_recursive_types(T)]
pub struct ExSubMsg<T>(SubMsg<T>);

/// `cosmwasm_std::Response`: what an entry point hands back to the chain.
#[verifier::external_type_specification]
#[verifier::external_body]
#[verifier::reject_recursive_types(T)]
pub struct ExResponse<T>(Response<T>);

/// `cosmwasm_std::StdError`: an error raised by the chain or by encoding.
#[verifier::external_type_specification]
#[verifier::external_body]
pub struct ExStdError(StdError);

/// When the chain calls back after running a message: the four settings of
/// `cosmwasm_std::ReplyOn`.
pub enum ReplyWhen {
    Always,
    Error,
    Success,
    Never,
}

/// The four fields of a `SubMsg`, as the contracts of this crate read them.
pub struct Dispatch {
    pub id: u64,
    pub msg: CosmosMsg,
    pub gas_limit: Option<u64>,
    pub reply_on: ReplyWhen,
}

/// A message sent without asking for any reply: what `SubMsg::new` builds.
pub open spec fn direct(msg: CosmosMsg) -> Dispatch {
    Dispatch { id: 0, msg, gas_limit: None, reply_on: ReplyWhen::Never }
}

/// A message whose success is reported back under `id`, and whose failure is
/// not reported at all.
pub open spec fn on_success(msg: CosmosMsg, id: u64) -> Dispatch {
    Dispatch { id, msg, gas_limit: None, reply_on: ReplyWhen::Success }
}

/// The fields `id`, `msg`, `gas_limit` and `reply_on` of a `SubMsg`.
pub uninterp spec fn submsg_fields(s: SubMsg) -> Dispatch;

/// The field `messages` of a `Response`, each entry by its four fields.
pub uninterp spec fn response_messages(r: Response) -> Seq<Dispatch>;

/// Whether a `Response` carries nothing but messages: its `attributes` and
/// `events` are empty and its `data` is `None`.
pub uninterp spec fn response_is_bare(r: Response) -> bool;

/// `CosmosMsg::Bank(BankMsg::Send { .. })` with recipient `to` and the single
/// coin `amount` of `denom`.
pub uninterp spec fn bank_send(to: Seq<char>, denom: Seq<char>, amount: u128) -> CosmosMsg;

/// What `Cw20Contract::call` returns for `Cw20ExecuteMsg::Transfer` on the
/// token contract at `contract`.
pub uninterp spec fn cw20_transfer(contract: Seq<char>, recipient: Seq<char>, amount: u128) -> Result<CosmosMsg, StdError>;

/// What `Cw721Contract::call` returns for `ExecuteMsg::TransferNft` on the
/// token contract at `contract`.
pub uninterp spec fn cw721_transfer(contract: Seq<char>, recipient: Seq<char>, token_id: Seq<char>) -> Result<CosmosMsg, StdError>;

/// `CosmosMsg::Wasm(WasmMsg::Execute { .. })` that calls the contract at
/// `contract` with the encoded message `payload` and no funds.
pub uninterp spec fn wasm_execute(contract: Seq<char>, payload: Seq<u8>) -> CosmosMsg;

/// `Response::new`: no messages, attributes or events, and no data.
#[verifier::external_body]
pub(crate) fn response_new() -> (r: Response)
    ensures
        response_messages(r) == Seq::<Dispatch>::empty(),
        response_is_bare(r),
{
    Response::new()
}

/// `Response::add_message`: pushes `SubMsg::new(msg)` onto `messages` and
/// touches nothing else.
#[verifier::external_body]
pub(crate) fn response_add_message(r: Response, msg: CosmosMsg) -> (out: Response)
    ensures
        response_messages(out) == response_messages(r).push(direct(msg)),
        response_is_bare(out) == response_is_bare(r),
{
    r.add_message(msg)
}

/// `Response::add_messages`: extends `messages` by `SubMsg::new` of each
/// given message, in order, and touches nothing else.
#[verifier::external_body]
pub(crate) fn response_add_messages(r: Response, msgs: Vec<CosmosMsg>) -> (out: Response)
    ensures
        response_messages(out) == response_messages(r) + msgs@.map_values(|m: CosmosMsg| direct(m)),
        response_is_bare(out) == response_is_bare(r),
{
    r.add_messages(msgs)
}

/// `Response::add_submessage`: pushes the sub-message onto `messages` and
/// touches nothing else.
#[verifier::external_body]
pub(crate) fn response_add_submessage(r: Response, sub: SubMsg) -> (out: Response)
    ensures
        response_messages(out) == response_messages(r).push(submsg_fields(sub)),
        response_is_bare(out) == response_is_bare(r),
{
    r.add_submessage(sub)
}

/// `SubMsg::reply_on_success`: the given message and id, `ReplyOn::Success`,
/// no gas limit.
#[verifier::external_body]
pub(crate) fn submsg_reply_on_success(msg: CosmosMsg, id: u64) -> (sub: SubMsg)
    ensures
        submsg_fields(sub) == on_success(msg, id),
{
    SubMsg::reply_on_success(msg, id)
}

/// Builds the bank message that sends `amount` of `denom` to `to`.
#[verifier::external_body]
pub(crate) fn bank_send_msg(to: String, denom: String, amount: u128) -> (msg: CosmosMsg)
    ensures
        msg == bank_send(to@, denom@, amount),
{
    CosmosMsg::Bank(BankMsg::Send {
        to_address: to,
        amount: vec![Coin { denom, amount: Uint128::new(amount) }],
    })
}

/// `Cw20Contract::call` with `Cw20ExecuteMsg::Transfer`: encodes the transfer
/// and wraps it in a call to the token contract; fails where encoding fails.
#[verifier::external_body]
pub(crate) fn cw20_transfer_msg(contract: String, recipient: String, amount: u128) -> (r: Result<CosmosMsg, StdError>)
    ensures
        r == cw20_transfer(contract@, recipient@, amount),
{
    Cw20Contract(Addr::unchecked(contract)).call(Cw20ExecuteMsg::Transfer {
        recipient,
        amount: Uint128::new(amount),
    })
}

/// `Cw721Contract::call` with `ExecuteMsg::TransferNft`: encodes the transfer
/// and wraps it in a call to the token contract; fails where encoding fails.
#[verifier::external_body]
pub(crate) fn cw721_transfer_msg(contract: String, recipient: String, token_id: String) -> (r: Result<CosmosMsg, StdError>)
    ensures
        r == cw721_transfer(contract@, recipient@, token_id@),
{
    Cw721Contract(Addr::unchecked(contract), PhantomData::<Empty>, PhantomData::<Empty>)
        .call::<Empty>(cw721_base::ExecuteMsg::TransferNft { recipient, token_id })
}

/// Builds the message that calls the contract at `contract` with an encoded
/// message and no funds.
#[verifier::external_body]
pub(crate) fn wasm_execute_msg(contract: String, payload: Vec<u8>) -> (msg: CosmosMsg)
    ensures
        msg == wasm_execute(contract@, payload@),
{
    WasmMsg::Execute { contract_addr: contract, msg: Binary::from(payload), funds: vec![] }.into()
}

} // verus!
