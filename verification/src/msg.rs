//! The commands the relay accepts.

use vstd::prelude::*;
use cosmwasm_std::CosmosMsg;

verus! {

/// Sent once, when the relay is set up. It carries nothing: the caller
/// becomes the owner.
#[derive(Debug, Clone)]
pub struct InstantiateMsg {}

/// A command for a running relay.
#[derive(Debug)]
pub enum ExecuteMsg {
    /// Forward a list of messages; with the flag set, undo them all once the
    /// last one has gone through.
    Execute(Vec<CosmosMsg>, bool),
    /// Pay the relay's holdings out to the owner.
    Refund(Vec<RefundCoin>),
    /// Hand the relay over to another address.
    TransferOwnership(String),
}

/// One withdrawal request. An `amount` of `None` asks for the whole balance
/// at the time of the call.
#[derive(Debug, Clone)]
pub enum RefundCoin {
    Native { denom: String, amount: Option<u128> },
    CW20 { address: String, amount: Option<u128> },
    CW721 { address: String, token_id: String },
}

/// A query. It carries nothing, and the relay answers none.
#[derive(Debug, Clone)]
pub struct QueryMsg {}

} // verus!
