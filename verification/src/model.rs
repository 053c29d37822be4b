//! The lifecycle as mathematics: what each operation answers in a given
//! state, and the state it leaves.
//!
//! A state is the configuration, the next nonce, the registry and the
//! ledger. Each operation has a function for its answer and, where it
//! changes anything, a function named `after_..` for the state that follows.
//! An operation that fails leaves the state as it was.

use vstd::prelude::*;
use crate::account::MultisigAccountView;
use crate::bounded::MAX_MEMBERS;
use crate::identity::{call_hash_of, spec_account_id, spec_transaction_id};
use crate::tally::{approvals, rejections};
use crate::transaction::{expiry, proposed, TransactionView};
use crate::types::{
    Config,
    Deposit,
    Error,
    Event,
    Funding,
    Hold,
    HoldReason,
    Preservation,
    Submission,
    Sweep,
    TransactionStatus,
    Transfer,
    Vote,
};

verus! {

/// The state of the pallet, as mathematics.
pub struct PalletView {
    pub config: Config,
    /// The nonce from which the next account's address is derived.
    pub nonce: u64,
    pub multisigs: Map<u64, MultisigAccountView>,
    pub transactions: Map<(u64, [u8; 32]), TransactionView>,
}

/// The threshold that a multisig is created with: the one asked for, or the
/// configured default.
pub open spec fn resolved_threshold(config: Config, threshold: Option<u32>) -> u32 {
    match threshold {
        Some(t) => t,
        None => config.default_threshold,
    }
}

/// Whether a threshold asks for one vote at least and for no more than there
/// are members.
pub open spec fn threshold_in_range(threshold: u32, members: Set<u64>) -> bool {
    1 <= threshold <= members.len()
}

/// What is moved into a new multisig account: the deposit and one unit more
/// to keep the account alive, as far as the balance type can say it.
pub open spec fn total_deposit(config: Config) -> u128 {
    if config.multisig_deposit + 1 > u128::MAX {
        u128::MAX
    } else {
        (config.multisig_deposit + 1) as u128
    }
}

impl PalletView {
    /// Every account in the registry is well formed, and so is every
    /// transaction in the ledger, which expires one window after its
    /// creation.
    pub open spec fn wf(self) -> bool {
        &&& self.multisigs.dom().finite()
        &&& self.transactions.dom().finite()
        &&& forall|address: u64| #[trigger]
            self.multisigs.contains_key(address) ==> self.multisigs[address].wf()
        &&& forall|key: (u64, [u8; 32])| #[trigger]
            self.transactions.contains_key(key) ==> self.transactions[key].wf()
                && self.transactions[key].expires_at == expiry(
                self.transactions[key].created_at,
                self.config.default_expiration_blocks,
            )
    }

    /// The state of a pallet that takes up work at `nonce` with nothing
    /// registered or kept yet.
    pub open spec fn resumed(config: Config, nonce: u64) -> PalletView {
        PalletView { config, nonce, multisigs: Map::empty(), transactions: Map::empty() }
    }

    /// Whether an account may be brought back into the registry.
    pub open spec fn admits_multisig(self, account: MultisigAccountView) -> bool {
        account.wf()
    }

    /// The state after bringing an account back under `address`: it is
    /// registered where it is well formed, and left out otherwise.
    pub open spec fn after_load_multisig(self, address: u64, account: MultisigAccountView)
        -> PalletView {
        if self.admits_multisig(account) {
            PalletView { multisigs: self.multisigs.insert(address, account), ..self }
        } else {
            self
        }
    }

    /// Whether a transaction may be brought back into the ledger.
    pub open spec fn admits_transaction(self, transaction: TransactionView) -> bool {
        transaction.wf() && transaction.expires_at == expiry(
            transaction.created_at,
            self.config.default_expiration_blocks,
        )
    }

    /// The state after bringing a transaction back under its key: it is
    /// kept where it is well formed and expires as the configuration says,
    /// and left out otherwise.
    pub open spec fn after_load_transaction(
        self,
        multisig: u64,
        id: [u8; 32],
        transaction: TransactionView,
    ) -> PalletView {
        if self.admits_transaction(transaction) {
            PalletView {
                transactions: self.transactions.insert((multisig, id), transaction),
                ..self
            }
        } else {
            self
        }
    }

    /// Whether `who` is a member of a multisig kept under `multisig`.
    pub open spec fn is_member(self, multisig: u64, who: u64) -> bool {
        self.multisigs.contains_key(multisig) && self.multisigs[multisig].members.contains(who)
    }

    /// The answer to a request to create a multisig whose address is
    /// `address`: what the host has to move and hold. Nothing in the state
    /// changes until the creation is concluded.
    ///
    /// A threshold of zero is turned down with the threshold that the
    /// members cannot meet, as `ThresholdTooHigh`: it is the one kind that
    /// speaks of a threshold at creation.
    pub open spec fn create_multisig_at(
        self,
        address: u64,
        who: u64,
        members: Set<u64>,
        threshold: Option<u32>,
        spendable: u128,
    ) -> Result<Deposit, Error> {
        if !members.contains(who) {
            Err(Error::ProposerMustBeMember)
        } else if !threshold_in_range(resolved_threshold(self.config, threshold), members) {
            Err(Error::ThresholdTooHigh)
        } else if spendable < self.config.multisig_deposit {
            Err(Error::NotEnoughFunds)
        } else {
            Ok(
                Deposit {
                    transfer: Transfer {
                        from: who,
                        to: address,
                        amount: total_deposit(self.config),
                        preservation: Preservation::Expendable,
                    },
                    hold: Hold {
                        reason: HoldReason::MultisigCreationDeposit,
                        account: address,
                        amount: self.config.multisig_deposit,
                    },
                },
            )
        }
    }

    /// The answer to a request to create a multisig: the address is derived
    /// from the nonce.
    pub open spec fn create_multisig(
        self,
        who: u64,
        members: Set<u64>,
        threshold: Option<u32>,
        spendable: u128,
    ) -> Result<Deposit, Error> {
        self.create_multisig_at(spec_account_id(self.nonce), who, members, threshold, spendable)
    }

    /// Whether a creation with these members and this threshold goes through
    /// once its deposit is `funded`: the creator is a member and the
    /// threshold is in range.
    pub open spec fn creation_goes_through(
        self,
        who: u64,
        members: Set<u64>,
        threshold: Option<u32>,
        funded: bool,
    ) -> bool {
        &&& members.contains(who)
        &&& threshold_in_range(resolved_threshold(self.config, threshold), members)
        &&& funded
    }

    /// The answer once the host has tried to move and hold the deposit of a
    /// multisig whose address is `address`. The request is looked at again,
    /// but for the funds, of which the host has said what came of them.
    pub open spec fn conclude_creation_at(
        self,
        address: u64,
        who: u64,
        members: Set<u64>,
        threshold: Option<u32>,
        funded: bool,
    ) -> Result<Event, Error> {
        if !members.contains(who) {
            Err(Error::ProposerMustBeMember)
        } else if !threshold_in_range(resolved_threshold(self.config, threshold), members) {
            Err(Error::ThresholdTooHigh)
        } else if !funded {
            Err(Error::TransferFailed)
        } else {
            Ok(Event::NewMultisig { creator: who, multisig: address })
        }
    }

    /// The state after concluding the creation of a multisig whose address
    /// is `address`: where the deposit was moved and held, the nonce has
    /// moved on and the account is registered; otherwise nothing has
    /// changed.
    pub open spec fn after_conclude_creation_at(
        self,
        address: u64,
        who: u64,
        members: Set<u64>,
        threshold: Option<u32>,
        now: u64,
        funded: bool,
    ) -> PalletView {
        if self.conclude_creation_at(address, who, members, threshold, funded) is Ok {
            PalletView {
                nonce: (self.nonce + 1) as u64,
                multisigs: self.multisigs.insert(
                    address,
                    MultisigAccountView {
                        creator: who,
                        members,
                        threshold: resolved_threshold(self.config, threshold),
                        created_at: now,
                    },
                ),
                ..self
            }
        } else {
            self
        }
    }

    /// The answer once the host has tried to move and hold the deposit: the
    /// address is derived from the nonce.
    pub open spec fn conclude_creation(
        self,
        who: u64,
        members: Set<u64>,
        threshold: Option<u32>,
        funded: bool,
    ) -> Result<Event, Error> {
        self.conclude_creation_at(spec_account_id(self.nonce), who, members, threshold, funded)
    }

    /// The state after concluding a creation.
    pub open spec fn after_conclude_creation(
        self,
        who: u64,
        members: Set<u64>,
        threshold: Option<u32>,
        now: u64,
        funded: bool,
    ) -> PalletView {
        self.after_conclude_creation_at(
            spec_account_id(self.nonce),
            who,
            members,
            threshold,
            now,
            funded,
        )
    }

    /// The answer to funding a multisig. Nothing in the state changes.
    pub open spec fn fund_multisig(self, who: u64, multisig: u64, amount: u128, spendable: u128)
        -> Result<Funding, Error> {
        if amount == 0 {
            Err(Error::ZeroAmount)
        } else if spendable < amount {
            Err(Error::NotEnoughFunds)
        } else if !self.multisigs.contains_key(multisig) {
            Err(Error::MultisigDoesNotExist)
        } else {
            Ok(
                Funding {
                    transfer: Transfer {
                        from: who,
                        to: multisig,
                        amount,
                        preservation: Preservation::Preserve,
                    },
                    event: Event::MultisigFunded { from: who, to: multisig, amount },
                },
            )
        }
    }

    /// The event that reports a transaction kept under `id`.
    pub open spec fn store_transaction(
        self,
        id: [u8; 32],
        from: u64,
        multisig: u64,
        call_hash: [u8; 32],
    ) -> Event {
        Event::TransactionCreated {
            proposer: from,
            transaction: id,
            multisig,
            status: TransactionStatus::Pending,
            call_hash,
        }
    }

    /// The state after keeping a new transaction under `id`, in place of any
    /// kept there before.
    pub open spec fn after_store_transaction(
        self,
        id: [u8; 32],
        from: u64,
        multisig: u64,
        call: Seq<u8>,
        call_hash: [u8; 32],
        now: u64,
    ) -> PalletView {
        PalletView {
            transactions: self.transactions.insert(
                (multisig, id),
                proposed(from, call, call_hash, now, self.config.default_expiration_blocks),
            ),
            ..self
        }
    }

    /// The event of building a transaction: its identifier is derived from
    /// the proposer, the height and the call hash.
    pub open spec fn build_transaction(
        self,
        from: u64,
        multisig: u64,
        call_hash: [u8; 32],
        now: u64,
    ) -> Event {
        self.store_transaction(spec_transaction_id(from, now, call_hash), from, multisig, call_hash)
    }

    /// The state after building a transaction.
    pub open spec fn after_build_transaction(
        self,
        from: u64,
        multisig: u64,
        call: Seq<u8>,
        call_hash: [u8; 32],
        now: u64,
    ) -> PalletView {
        self.after_store_transaction(
            spec_transaction_id(from, now, call_hash),
            from,
            multisig,
            call,
            call_hash,
            now,
        )
    }

    /// The answer to proposing a call whose hash is `call_hash`.
    pub open spec fn propose_hashed(self, who: u64, multisig: u64, call_hash: [u8; 32], now: u64)
        -> Result<Event, Error> {
        if !self.multisigs.contains_key(multisig) {
            Err(Error::MultisigDoesNotExist)
        } else if !self.multisigs[multisig].members.contains(who) {
            Err(Error::ProposerMustBeMember)
        } else {
            Ok(self.build_transaction(who, multisig, call_hash, now))
        }
    }

    /// The state after proposing a call whose hash is `call_hash`.
    pub open spec fn after_propose_hashed(
        self,
        who: u64,
        multisig: u64,
        call: Seq<u8>,
        call_hash: [u8; 32],
        now: u64,
    ) -> PalletView {
        if self.propose_hashed(who, multisig, call_hash, now) is Ok {
            self.after_build_transaction(who, multisig, call, call_hash, now)
        } else {
            self
        }
    }

    /// The answer to proposing a call.
    pub open spec fn propose_transaction(self, who: u64, multisig: u64, call: Seq<u8>, now: u64)
        -> Result<Event, Error> {
        self.propose_hashed(who, multisig, call_hash_of(call), now)
    }

    /// The state after proposing a call.
    pub open spec fn after_propose_transaction(
        self,
        who: u64,
        multisig: u64,
        call: Seq<u8>,
        now: u64,
    ) -> PalletView {
        self.after_propose_hashed(who, multisig, call, call_hash_of(call), now)
    }

    /// The answer to casting a vote.
    pub open spec fn vote(self, who: u64, multisig: u64, id: [u8; 32], vote: Vote) -> Result<
        Event,
        Error,
    > {
        if !self.multisigs.contains_key(multisig) {
            Err(Error::MultisigDoesNotExist)
        } else if !self.multisigs[multisig].members.contains(who) {
            Err(Error::NotAMember)
        } else if !self.transactions.contains_key((multisig, id)) {
            Err(Error::TransactionDoesNotExist)
        } else if self.transactions[(multisig, id)].status != TransactionStatus::Pending {
            Err(Error::TransactionNotPending)
        } else if self.transactions[(multisig, id)].votes.contains_key(who) {
            Err(Error::AlreadyVoted)
        } else if self.transactions[(multisig, id)].votes.dom().len() >= MAX_MEMBERS {
            Err(Error::VoteLimitReached)
        } else {
            Ok(
                Event::TransactionVoted {
                    voter: who,
                    transaction: id,
                    multisig,
                    vote,
                    call_hash: self.transactions[(multisig, id)].call_hash,
                },
            )
        }
    }

    /// The state after casting a vote: the vote is recorded beside the
    /// others.
    pub open spec fn after_vote(self, who: u64, multisig: u64, id: [u8; 32], vote: Vote)
        -> PalletView {
        if self.vote(who, multisig, id, vote) is Ok {
            PalletView {
                transactions: self.transactions.insert(
                    (multisig, id),
                    TransactionView {
                        votes: self.transactions[(multisig, id)].votes.insert(who, vote),
                        ..self.transactions[(multisig, id)]
                    },
                ),
                ..self
            }
        } else {
            self
        }
    }

    /// The answer to submitting a transaction with a call whose digest is
    /// `digest`. The call has to hash to the hash given with it, and that
    /// hash has to be the one kept with the transaction, so that no call but
    /// the one proposed goes ahead. Nothing in the state changes.
    pub open spec fn submit_hashed(
        self,
        who: u64,
        multisig: u64,
        id: [u8; 32],
        digest: [u8; 32],
        call_hash: [u8; 32],
    ) -> Result<Submission, Error> {
        if !self.multisigs.contains_key(multisig) {
            Err(Error::MultisigDoesNotExist)
        } else if !self.multisigs[multisig].members.contains(who) {
            Err(Error::NotAMember)
        } else if digest != call_hash {
            Err(Error::MismatchingCallHash)
        } else if !self.transactions.contains_key((multisig, id)) {
            Err(Error::TransactionDoesNotExist)
        } else if self.transactions[(multisig, id)].call_hash != call_hash {
            Err(Error::MismatchingCallHash)
        } else if self.transactions[(multisig, id)].status != TransactionStatus::Pending {
            Err(Error::TransactionNotPending)
        } else {
            let votes = self.transactions[(multisig, id)].votes;
            let threshold = self.multisigs[multisig].threshold;
            Ok(
                Submission {
                    submitter: who,
                    multisig,
                    transaction: id,
                    call_hash,
                    proposer: self.transactions[(multisig, id)].proposer,
                    approvals: approvals(votes) as u32,
                    rejections: rejections(votes) as u32,
                    quorum: approvals(votes) >= threshold || rejections(votes) >= threshold,
                },
            )
        }
    }

    /// The answer to submitting a transaction with `call`.
    pub open spec fn submit_transaction(
        self,
        who: u64,
        multisig: u64,
        id: [u8; 32],
        call: Seq<u8>,
        call_hash: [u8; 32],
    ) -> Result<Submission, Error> {
        self.submit_hashed(who, multisig, id, call_hash_of(call), call_hash)
    }

    /// The answer once the host has tried to dispatch the call of a
    /// submission: nothing to report without a quorum, a failure where the
    /// dispatch failed, the execution otherwise.
    pub open spec fn conclude_submission(self, submission: Submission, dispatched: bool) -> Result<
        Option<Event>,
        Error,
    > {
        if !submission.quorum {
            Ok(None)
        } else if !dispatched {
            Err(Error::TransactionFailed)
        } else {
            Ok(
                Some(
                    Event::TransactionExecuted {
                        submitter: submission.submitter,
                        transaction: submission.transaction,
                        multisig: submission.multisig,
                        approvals: submission.approvals,
                        rejections: submission.rejections,
                        status: TransactionStatus::Complete,
                        call_hash: submission.call_hash,
                    },
                ),
            )
        }
    }

    /// The state after concluding a submission: a transaction whose call was
    /// dispatched is gone from the ledger.
    pub open spec fn after_conclude_submission(self, submission: Submission, dispatched: bool)
        -> PalletView {
        if submission.quorum && dispatched {
            PalletView {
                transactions: self.transactions.remove(
                    (submission.multisig, submission.transaction),
                ),
                ..self
            }
        } else {
            self
        }
    }

    /// The answer to asking for a cancellation. Nothing in the state
    /// changes.
    pub open spec fn cancel_transaction(self, who: u64, multisig: u64, id: [u8; 32]) -> Result<
        Event,
        Error,
    > {
        if !self.multisigs.contains_key(multisig) {
            Err(Error::MultisigDoesNotExist)
        } else if !self.multisigs[multisig].members.contains(who) {
            Err(Error::NotAMember)
        } else if !self.transactions.contains_key((multisig, id)) {
            Err(Error::TransactionDoesNotExist)
        } else {
            Ok(
                Event::TransactionCanceled {
                    submitter: who,
                    transaction: id,
                    multisig,
                    status: TransactionStatus::Canceled,
                    call_hash: self.transactions[(multisig, id)].call_hash,
                },
            )
        }
    }

    /// The answer to deleting a multisig. Nothing in the state changes until
    /// the deletion is concluded.
    pub open spec fn delete_multisig(self, who: u64, multisig: u64) -> Result<Sweep, Error> {
        if !self.multisigs.contains_key(multisig) {
            Err(Error::MultisigDoesNotExist)
        } else if !self.multisigs[multisig].members.contains(who) {
            Err(Error::NotAMember)
        } else {
            Ok(
                Sweep {
                    caller: who,
                    multisig,
                    creator: self.multisigs[multisig].creator,
                    release: HoldReason::MultisigCreationDeposit,
                },
            )
        }
    }

    /// The answer once the host has tried to sweep a multisig's funds to its
    /// creator. The request is looked at again: a sweep that no member of an
    /// existing multisig asked for is turned down as the request would be.
    pub open spec fn conclude_deletion(self, sweep: Sweep, transferred: bool) -> Result<
        Event,
        Error,
    > {
        match self.delete_multisig(sweep.caller, sweep.multisig) {
            Err(refusal) => Err(refusal),
            Ok(_) => if !transferred {
                Err(Error::TransferFailed)
            } else {
                Ok(Event::MultisigDeleted { from: sweep.caller, multisig: sweep.multisig })
            },
        }
    }

    /// The state after concluding a deletion: a multisig whose funds were
    /// swept is gone from the registry.
    pub open spec fn after_conclude_deletion(self, sweep: Sweep, transferred: bool) -> PalletView {
        if self.conclude_deletion(sweep, transferred) is Ok {
            PalletView { multisigs: self.multisigs.remove(sweep.multisig), ..self }
        } else {
            self
        }
    }
}

} // verus!
