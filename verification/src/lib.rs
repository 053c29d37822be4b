//! Shared-custody accounts: a group of members jointly owns a derived
//! account and must reach a quorum vote before a call is executed on the
//! account's behalf.
//!
//! The library is the authorization core that a ledger runtime builds on.
//! It owns the registry of multisig accounts and the ledger of proposed
//! transactions and decides every request; the runtime around it
//! authenticates callers, keeps balances, tells the block height,
//! dispatches calls and logs events.
//!
//! - [`identity`] derives the identifiers of accounts and transactions.
//! - [`tally`] counts votes.
//! - [`account`] and [`transaction`] are the records, [`registry`] and
//!   [`ledger`] keep them, over the tables of [`table`].
//! - [`model`] says as mathematics what each operation answers and what
//!   state it leaves; [`pallet`] holds the operations, verified against it.
//! - [`laws`] proves what holds of the lifecycle in every state.
//! - [`bounded`] is the boundary to the bounded collections that hold
//!   members and votes, and [`types`] the plain values that everything
//!   shares.

pub mod account;
pub mod bounded;
pub mod identity;
pub mod laws;
pub mod ledger;
pub mod model;
pub mod pallet;
pub mod registry;
pub mod table;
pub mod tally;
pub mod transaction;
pub mod types;

pub use crate::account::MultisigAccount;
pub use crate::bounded::{MaxMembers, MemberSet, VoteMap, MAX_MEMBERS};
pub use crate::pallet::Pallet;
pub use crate::transaction::Transaction;
pub use crate::types::{
    Config, Deposit, Error, Event, Funding, Hold, HoldReason, Preservation, Submission, Sweep,
    TransactionStatus, Transfer, Vote,
};
