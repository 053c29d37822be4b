//! Plain value types shared by every component: votes, statuses, error kinds.

use vstd::prelude::*;

verus! {

/// A member's position on a proposed transaction. Immutable once cast.
#[derive(Clone, Copy, Debug, PartialEq, Eq, Structural)]
pub enum Vote {
    Approve,
    Reject,
}

/// Where a proposed transaction stands in its lifecycle.
#[derive(Clone, Copy, Debug, PartialEq, Eq, Structural)]
pub enum TransactionStatus {
    Pending,
    Complete,
    Canceled,
    Rejected,
    Expired,
}

/// Why funds of an account are held back.
#[derive(Clone, Copy, Debug, PartialEq, Eq, Structural)]
pub enum HoldReason {
    MultisigCreationDeposit,
}

/// Every way a request can be turned down. `ApprovalThresholdMet`,
/// `TransactionAlreadyExists` and `ThresholdNotReached` are reserved: no
/// operation raises them.
#[derive(Clone, Copy, Debug, PartialEq, Eq, Structural)]
pub enum Error {
    /// Already voted.
    AlreadyVoted,
    /// The approval threshold has been reached.
    ApprovalThresholdMet,
    /// Creator must be a member of the multisig.
    ProposerMustBeMember,
    /// Threshold is too high compared to members, or asks for no vote at
    /// all.
    ThresholdTooHigh,
    /// Multisig does not exist.
    MultisigDoesNotExist,
    /// Transaction already exists.
    TransactionAlreadyExists,
    /// Transaction does not exist.
    TransactionDoesNotExist,
    /// Transaction not pending.
    TransactionNotPending,
    /// Transaction failed.
    TransactionFailed,
    /// Fund transfer failed: the deposit of a new multisig was not moved
    /// and held, or the funds of a deleted one were not swept.
    TransferFailed,
    /// Insufficient funds.
    NotEnoughFunds,
    /// Zero amount.
    ZeroAmount,
    /// Maximum vote limit reached.
    VoteLimitReached,
    /// Not a member of the multisig.
    NotAMember,
    /// The approval threshold has not been reached.
    ThresholdNotReached,
    /// Call hash does not match the expected.
    MismatchingCallHash,
}

/// The values that a deployment fixes once. The bound on members and votes
/// is fixed with the collection types, as `MAX_MEMBERS`.
#[derive(Clone, Copy, Debug, PartialEq, Eq, Structural)]
pub struct Config {
    /// The threshold of a multisig created without one.
    pub default_threshold: u32,
    /// The deposit that creating a multisig takes, held in the new account.
    pub multisig_deposit: u128,
    /// The number of blocks after which a transaction counts as expired.
    pub default_expiration_blocks: u64,
}

/// What an operation reports when it succeeds. The host appends it to its
/// log; nothing is reported of a request that fails.
#[derive(Clone, Copy, Debug, PartialEq, Eq)]
pub enum Event {
    /// A new multisig has been created.
    NewMultisig { creator: u64, multisig: u64 },
    /// A multisig has been deleted.
    MultisigDeleted { from: u64, multisig: u64 },
    /// A multisig has been funded.
    MultisigFunded { from: u64, to: u64, amount: u128 },
    /// A proposed transaction has been created.
    TransactionCreated {
        proposer: u64,
        transaction: [u8; 32],
        multisig: u64,
        status: TransactionStatus,
        call_hash: [u8; 32],
    },
    /// A proposed transaction has been voted on.
    TransactionVoted {
        voter: u64,
        transaction: [u8; 32],
        multisig: u64,
        vote: Vote,
        call_hash: [u8; 32],
    },
    /// A proposed transaction has been submitted and its call dispatched.
    TransactionExecuted {
        submitter: u64,
        transaction: [u8; 32],
        multisig: u64,
        approvals: u32,
        rejections: u32,
        status: TransactionStatus,
        call_hash: [u8; 32],
    },
    /// A member has asked for a proposed transaction to be canceled.
    TransactionCanceled {
        submitter: u64,
        transaction: [u8; 32],
        multisig: u64,
        status: TransactionStatus,
        call_hash: [u8; 32],
    },
}

/// How much of the sender's balance a transfer may take.
#[derive(Clone, Copy, Debug, PartialEq, Eq, Structural)]
pub enum Preservation {
    /// The sender's account may be emptied and cease to exist.
    Expendable,
    /// The sender's account must stay alive.
    Preserve,
}

/// A movement of funds that the host's ledger is asked to make.
#[derive(Clone, Copy, Debug, PartialEq, Eq, Structural)]
pub struct Transfer {
    pub from: u64,
    pub to: u64,
    pub amount: u128,
    pub preservation: Preservation,
}

/// A hold that the host's ledger is asked to place on an account.
#[derive(Clone, Copy, Debug, PartialEq, Eq, Structural)]
pub struct Hold {
    pub reason: HoldReason,
    pub account: u64,
    pub amount: u128,
}

/// What creating a multisig asks of the host: move the deposit into the new
/// account and hold it there.
#[derive(Clone, Copy, Debug, PartialEq, Eq, Structural)]
pub struct Deposit {
    pub transfer: Transfer,
    pub hold: Hold,
}

/// What funding a multisig asks of the host: move the amount, then report
/// the event.
#[derive(Clone, Copy, Debug, PartialEq, Eq)]
pub struct Funding {
    pub transfer: Transfer,
    pub event: Event,
}

/// What a submission found: the tally, and whether a quorum lets the call be
/// dispatched under the proposer's authority.
#[derive(Clone, Copy, Debug, PartialEq, Eq)]
pub struct Submission {
    pub submitter: u64,
    pub multisig: u64,
    pub transaction: [u8; 32],
    pub call_hash: [u8; 32],
    /// The account under whose authority the call is dispatched.
    pub proposer: u64,
    pub approvals: u32,
    pub rejections: u32,
    /// Whether the approvals or the rejections reach the threshold.
    pub quorum: bool,
}

/// What deleting a multisig asks of the host: release every hold placed for
/// `release` on `multisig`, as far as that goes, then move all that can be
/// taken from `multisig` to `creator`, leaving nothing behind.
#[derive(Clone, Copy, Debug, PartialEq, Eq, Structural)]
pub struct Sweep {
    pub caller: u64,
    pub multisig: u64,
    pub creator: u64,
    pub release: HoldReason,
}

} // verus!
