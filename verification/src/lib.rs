//! The validator-quorum engine of a bridge between two chains.
//!
//! Validators watch the foreign chain and vote on the actions that answer
//! what they saw there. The bridge counts the votes under the id that the
//! validators give an action, hands the action out to be carried out when the
//! count reaches the quorum, and forgets the tally once every validator has
//! voted. In the other direction it numbers the events that tell the
//! validators what users locked, burned or asked to be called.
//!
//! The bridge does not move assets or call contracts itself. Where an
//! operation needs the host to act, it hands back what the host has to do,
//! and a second operation takes the host's answer.
//!
//! Four things are as they are on purpose:
//!
//! - A vote is counted before its effect is handed out, and stays counted if
//!   the host then fails to carry the effect out. The failure is reported and
//!   nothing is tried again; whether the surrounding transaction is undone is
//!   for the host to say.
//! - The first vote under an id fixes the action. A later vote under the same
//!   id counts, whatever action it brings.
//! - Anyone can register as a validator, and nobody can be removed.
//! - A call that validators vote on has at most one argument, while a call
//!   that is relayed to the foreign chain carries any number.

pub mod address;
pub mod freezer;
pub mod laws;
pub mod model;
pub mod quorum;
pub mod record;
pub mod store;
pub mod types;

pub use crate::address::validate_address;
pub use crate::freezer::Freezer;
pub use crate::quorum::threshold;
pub use crate::types::{
    AccountId, Action, ActionInfo, Balance, BridgeError, CallArgs, ContractCall, Effect,
    HostError, PendingWithdrawal, ScCall, Transfer, UnfreezeWrap, VoteOutcome, VoteReceipt,
};
