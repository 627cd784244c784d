//! An owner-gated message relay with a deliberate-failure trapdoor.
//!
//! The crate holds the decisions of the relay and none of its input or
//! output: every operation takes plain values and says, as a value, what the
//! chain is to do next. Whatever has to be looked up on the chain (is this an
//! address, how large is that balance) is asked for in a [`machine::Step`],
//! and the operation goes on when the waiting state is resumed with the
//! answer.

pub mod chain;
pub mod error;
pub mod state;
pub mod msg;
pub mod machine;
pub mod execute;
pub mod contract;
pub mod helpers;
pub mod laws;
