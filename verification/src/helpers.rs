//! A handle on a deployed relay, for contracts that call one.

use vstd::prelude::*;
use cosmwasm_std::CosmosMsg;
use crate::chain::{wasm_execute, wasm_execute_msg};

verus! {

/// The address of a deployed relay.
#[derive(Debug, Clone)]
pub struct TrapdoorContract(pub String);

impl TrapdoorContract {
    /// The relay's address.
    pub fn addr(&self) -> (a: String)
        ensures
            a@ == self.0@,
    {
        self.0.clone()
    }

    /// The message that calls the relay with an encoded command and no funds.
    pub fn call(&self, payload: Vec<u8>) -> (msg: CosmosMsg)
        ensures
            msg == wasm_execute(self.0@, payload@),
    {
        wasm_execute_msg(self.addr(), payload)
    }
}

} // verus!
