//! The ways an operation of the relay can fail.

use vstd::prelude::*;
use cosmwasm_std::StdError;

verus! {

/// Why an operation was refused or gave up.
#[derive(Debug)]
pub enum ContractError {
    /// The caller is not the current owner.
    Unauthorized,
    /// A batch without any message was submitted.
    EmptyBatch,
    /// The abort callback fired: the failure that undoes a batch on purpose.
    OrchestratedFailure,
    /// A callback arrived under a tag that the relay never hands out.
    UnknownCallback(u64),
    /// The chain rejected a recipient or contract address.
    InvalidAddress(StdError),
    /// The chain could not answer a balance query.
    BalanceQueryFailure(StdError),
    /// A message for a token contract could not be encoded.
    Std(StdError),
    /// A query was made: the relay has no read side.
    NotImplemented,
}

} // verus!
