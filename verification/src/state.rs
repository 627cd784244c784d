//! The one record the relay keeps, and the guard in front of every operation.

use vstd::prelude::*;
use crate::error::ContractError;

verus! {

/// The persistent record: who controls the relay.
#[derive(Debug, Clone)]
pub struct State {
    pub owner: String,
}

/// Whether `sender` is the owner recorded in `state`.
pub open spec fn is_owner(state: State, sender: Seq<char>) -> bool {
    sender == state.owner@
}

/// The authorization guard: passes the owner and nobody else. It reads the
/// record and changes nothing.
pub fn authorize(state: &State, sender: &String) -> (r: Result<(), ContractError>)
    ensures
        is_owner(*state, sender@) ==> r == Ok::<(), ContractError>(()),
        !is_owner(*state, sender@) ==> r == Err::<(), ContractError>(ContractError::Unauthorized),
{
    if *sender == state.owner {
        Ok(())
    } else {
        Err(ContractError::Unauthorized)
    }
}

} // verus!
