//! The lifecycle operations on the registry and the ledger.
//!
//! The pallet owns the registry, the ledger and the nonce. What only the
//! host can do stays with the host: it says who is calling, what the block
//! height is and what the caller can spend, and it carries out what an
//! answer asks of it (moving funds, dispatching a call, logging an event).
//! Each operation answers as [`PalletView`] says and leaves the state that
//! [`PalletView`] says. A request that fails changes nothing.
//!
//! Where the outcome of the host's work decides what becomes of a request
//! (a deposit moved and held, a call dispatched, an account swept), the
//! operation comes in two steps: the first answers what the host has to
//! do and changes nothing, the second takes the outcome and changes the
//! state only where the host's work went through.

use vstd::prelude::*;
use crate::account::MultisigAccount;
use crate::bounded::{
    member_set,
    members_contains,
    members_len,
    vote_map,
    votes_contains_key,
    MemberSet,
    VoteMap,
    MAX_MEMBERS,
};
use crate::identity::{
    derive_account_id,
    derive_transaction_id,
    hash_call,
    spec_account_id,
    spec_transaction_id,
};
use crate::ledger::{same_id, Ledger};
use crate::model::{resolved_threshold, threshold_in_range, PalletView};
use crate::registry::Registry;
use crate::tally::{approvals, do_tally_votes, rejections, spec_tally};
use crate::transaction::Transaction;
use crate::types::{
    Config,
    Deposit,
    Error,
    Event,
    Funding,
    Hold,
    HoldReason,
    Preservation,
    Submission,
    Sweep,
    TransactionStatus,
    Transfer,
    Vote,
};

verus! {

/// The multisig pallet: its configuration, the nonce of the next account,
/// the registry of accounts and the ledger of transactions.
#[derive(Debug)]
pub struct Pallet {
    config: Config,
    nonce: u64,
    multisigs: Registry,
    transactions: Ledger,
}

impl View for Pallet {
    type V = PalletView;

    closed spec fn view(&self) -> PalletView {
        PalletView {
            config: self.config,
            nonce: self.nonce,
            multisigs: self.multisigs@,
            transactions: self.transactions@,
        }
    }
}

impl Clone for Pallet {
    /// A pallet in the same state: what a host keeps to go back to when a
    /// request fails after it has changed something.
    fn clone(&self) -> (c: Self)
        ensures
            c@ == self@,
            self.wf() ==> c.wf(),
    {
        Pallet {
            config: self.config,
            nonce: self.nonce,
            multisigs: self.multisigs.clone(),
            transactions: self.transactions.clone(),
        }
    }
}

impl Pallet {
    /// The registry and the ledger keep each key once, and the state they
    /// stand for is well formed.
    pub closed spec fn wf(&self) -> bool {
        &&& self.multisigs.wf()
        &&& self.transactions.wf()
        &&& self@.wf()
    }

    /// A well-formed pallet stands for a well-formed state.
    pub proof fn lemma_wf(&self)
        requires
            self.wf(),
        ensures
            self@.wf(),
    {
    }

    /// A pallet with no account and no transaction, whose first account will
    /// be derived from nonce 0.
    pub fn new(config: Config) -> (pallet: Pallet)
        ensures
            pallet.wf(),
            pallet@ == (PalletView {
                config,
                nonce: 0,
                multisigs: Map::empty(),
                transactions: Map::empty(),
            }),
    {
        Pallet { config, nonce: 0, multisigs: Registry::new(), transactions: Ledger::new() }
    }

    /// A pallet that takes up work where a stored one left it: with the
    /// nonce it had reached, and nothing registered or kept until it is
    /// loaded.
    pub fn resume(config: Config, nonce: u64) -> (pallet: Pallet)
        ensures
            pallet.wf(),
            pallet@ == PalletView::resumed(config, nonce),
    {
        Pallet { config, nonce, multisigs: Registry::new(), transactions: Ledger::new() }
    }

    /// Brings a stored account back under `address`, in place of any
    /// registered there. An account that is not well formed is left out;
    /// the answer says whether the account was taken.
    pub fn load_multisig(&mut self, address: u64, account: MultisigAccount) -> (loaded: bool)
        requires
            old(self).wf(),
        ensures
            final(self).wf(),
            loaded == old(self)@.admits_multisig(account@),
            final(self)@ == old(self)@.after_load_multisig(address, account@),
    {
        if !account.is_well_formed() {
            return false;
        }
        self.multisigs.insert(address, account);
        proof {
            self.multisigs.lemma_finite();
        }
        true
    }

    /// Brings a stored transaction back under its key, in place of any kept
    /// there. A transaction that is not well formed, or does not expire as
    /// the configuration says, is left out; the answer says whether the
    /// transaction was taken.
    pub fn load_transaction(
        &mut self,
        multisig: u64,
        id: [u8; 32],
        transaction: Transaction,
    ) -> (loaded: bool)
        requires
            old(self).wf(),
        ensures
            final(self).wf(),
            loaded == old(self)@.admits_transaction(transaction@),
            final(self)@ == old(self)@.after_load_transaction(multisig, id, transaction@),
    {
        if !transaction.is_well_formed() || !transaction.expires_after(
            self.config.default_expiration_blocks,
        ) {
            return false;
        }
        self.transactions.insert(multisig, id, transaction);
        proof {
            self.transactions.lemma_finite();
        }
        true
    }

    /// The configuration.
    pub fn config(&self) -> (config: Config)
        ensures
            config == self@.config,
    {
        self.config
    }

    /// The nonce from which the next account's address will be derived.
    pub fn nonce(&self) -> (nonce: u64)
        ensures
            nonce == self@.nonce,
    {
        self.nonce
    }

    /// The account registered under `address`, if there is one.
    pub fn multisig(&self, address: u64) -> (r: Option<&MultisigAccount>)
        requires
            self.wf(),
        ensures
            r is Some <==> self@.multisigs.contains_key(address),
            r matches Some(account) ==> account@ == self@.multisigs[address] && account@.wf(),
    {
        self.multisigs.get(address)
    }

    /// The transaction kept for `multisig` under `id`, if there is one.
    pub fn transaction(&self, multisig: u64, id: &[u8; 32]) -> (r: Option<&Transaction>)
        requires
            self.wf(),
        ensures
            r is Some <==> self@.transactions.contains_key((multisig, *id)),
            r matches Some(transaction) ==> transaction@ == self@.transactions[(multisig, *id)]
                && transaction@.wf(),
    {
        self.transactions.get(multisig, id)
    }

    /// Derives the address of the multisig account created with `nonce`.
    pub fn generate_multi_account_id(nonce: u64) -> (id: u64)
        ensures
            id == spec_account_id(nonce),
    {
        derive_account_id(nonce)
    }

    /// Derives the identifier of the transaction that `proposer` creates at
    /// `block_number` for a call with hash `call_hash`.
    pub fn generate_transaction_id(proposer: u64, block_number: u64, call_hash: [u8; 32]) -> (id: [
        u8;
        32
    ])
        ensures
            id == spec_transaction_id(proposer, block_number, call_hash),
    {
        derive_transaction_id(proposer, block_number, &call_hash)
    }

    /// Tallies the approvals and the rejections of a transaction: both
    /// counts while it is pending, `TransactionNotPending` otherwise.
    pub fn do_tally_votes(status: TransactionStatus, votes: &VoteMap) -> (tally: Result<
        (u32, u32),
        Error,
    >)
        ensures
            tally == spec_tally(status, vote_map(*votes)),
            status == TransactionStatus::Pending ==> (tally matches Ok((a, r)) && a == approvals(
                vote_map(*votes),
            ) && r == rejections(vote_map(*votes)) && a + r == vote_map(*votes).dom().len()),
            status != TransactionStatus::Pending ==> tally == Err::<(u32, u32), Error>(
                Error::TransactionNotPending,
            ),
    {
        do_tally_votes(status, votes)
    }

    /// Whether `threshold` asks for one vote at least and for no more than
    /// there are members.
    fn threshold_fits(threshold: u32, members: &MemberSet) -> (fits: bool)
        ensures
            fits == threshold_in_range(threshold, member_set(*members)),
            member_set(*members).finite(),
            member_set(*members).len() <= MAX_MEMBERS,
    {
        let count = members_len(members);
        1 <= threshold && threshold as usize <= count
    }

    /// The threshold that a multisig is created with: the one asked for, or
    /// the configured default.
    fn resolve_threshold(&self, threshold: Option<u32>) -> (resolved: u32)
        ensures
            resolved == resolved_threshold(self@.config, threshold),
    {
        match threshold {
            Some(t) => t,
            None => self.config.default_threshold,
        }
    }

    /// Answers a request to create a multisig at `address`.
    ///
    /// This is [`Pallet::create_multisig`] with the address given rather
    /// than derived.
    pub fn create_multisig_at(
        &self,
        address: u64,
        who: u64,
        members: &MemberSet,
        threshold: Option<u32>,
        spendable: u128,
    ) -> (r: Result<Deposit, Error>)
        requires
            self.wf(),
        ensures
            r == self@.create_multisig_at(
                address,
                who,
                member_set(*members),
                threshold,
                spendable,
            ),
    {
        if !members_contains(members, who) {
            return Err(Error::ProposerMustBeMember);
        }
        if !Self::threshold_fits(self.resolve_threshold(threshold), members) {
            return Err(Error::ThresholdTooHigh);
        }
        let deposit = self.config.multisig_deposit;
        if spendable < deposit {
            return Err(Error::NotEnoughFunds);
        }
        Ok(
            Deposit {
                transfer: Transfer {
                    from: who,
                    to: address,
                    amount: deposit.saturating_add(1),
                    preservation: Preservation::Expendable,
                },
                hold: Hold {
                    reason: HoldReason::MultisigCreationDeposit,
                    account: address,
                    amount: deposit,
                },
            },
        )
    }

    /// Answers a request of `who` to create a multisig with the given
    /// members, `who` among them.
    ///
    /// `spendable` is what the host's ledger lets `who` spend while keeping
    /// the account alive. The threshold is the one given, or the configured
    /// default. On success the answer asks the host to move the deposit,
    /// and one unit more, into the account whose address is derived from
    /// the nonce, and to hold the deposit there; the host hands the outcome
    /// to [`Pallet::conclude_creation`]. Nothing changes here.
    ///
    /// Fails with `ProposerMustBeMember` where `who` is not among the
    /// members, else with `ThresholdTooHigh` where the threshold is zero or
    /// exceeds their number, else with `NotEnoughFunds` where `spendable`
    /// does not cover the deposit. `ThresholdTooHigh` is the one kind that
    /// speaks of a threshold at creation, so it stands for the threshold of
    /// zero too.
    pub fn create_multisig(
        &self,
        who: u64,
        members: &MemberSet,
        threshold: Option<u32>,
        spendable: u128,
    ) -> (r: Result<Deposit, Error>)
        requires
            self.wf(),
        ensures
            r == self@.create_multisig(who, member_set(*members), threshold, spendable),
    {
        let address = derive_account_id(self.nonce);
        self.create_multisig_at(address, who, members, threshold, spendable)
    }

    /// Concludes the creation of a multisig at `address`.
    ///
    /// This is [`Pallet::conclude_creation`] with the address given rather
    /// than derived.
    pub fn conclude_creation_at(
        &mut self,
        address: u64,
        who: u64,
        members: MemberSet,
        threshold: Option<u32>,
        now: u64,
        funded: bool,
    ) -> (r: Result<Event, Error>)
        requires
            old(self).wf(),
            old(self)@.creation_goes_through(who, member_set(members), threshold, funded)
                ==> old(self)@.nonce < u64::MAX,
        ensures
            final(self).wf(),
            r == old(self)@.conclude_creation_at(
                address,
                who,
                member_set(members),
                threshold,
                funded,
            ),
            final(self)@ == old(self)@.after_conclude_creation_at(
                address,
                who,
                member_set(members),
                threshold,
                now,
                funded,
            ),
    {
        if !members_contains(&members, who) {
            return Err(Error::ProposerMustBeMember);
        }
        let threshold = self.resolve_threshold(threshold);
        if !Self::threshold_fits(threshold, &members) {
            return Err(Error::ThresholdTooHigh);
        }
        if !funded {
            return Err(Error::TransferFailed);
        }
        self.nonce = self.nonce + 1;
        let account = MultisigAccount { creator: who, members, threshold, created_at: now };
        self.multisigs.insert(address, account);
        proof {
            self.multisigs.lemma_finite();
        }
        Ok(Event::NewMultisig { creator: who, multisig: address })
    }

    /// Concludes a creation once the host has tried to move and hold the
    /// deposit that [`Pallet::create_multisig`] asked for, at block `now`.
    ///
    /// The request is looked at again, but for the funds, of which `funded`
    /// says what came of them. Where the deposit was moved and held, the
    /// account is registered under the address derived from the nonce, the
    /// nonce moves on and the creation is reported. Where it was not, the
    /// creation fails with `TransferFailed`, and neither the nonce nor the
    /// registry changes.
    ///
    /// Fails with `ProposerMustBeMember` and `ThresholdTooHigh` as
    /// [`Pallet::create_multisig`] does. Where the creation goes through,
    /// the nonce must have a successor.
    pub fn conclude_creation(
        &mut self,
        who: u64,
        members: MemberSet,
        threshold: Option<u32>,
        now: u64,
        funded: bool,
    ) -> (r: Result<Event, Error>)
        requires
            old(self).wf(),
            old(self)@.creation_goes_through(who, member_set(members), threshold, funded)
                ==> old(self)@.nonce < u64::MAX,
        ensures
            final(self).wf(),
            r == old(self)@.conclude_creation(who, member_set(members), threshold, funded),
            final(self)@ == old(self)@.after_conclude_creation(
                who,
                member_set(members),
                threshold,
                now,
                funded,
            ),
    {
        let address = derive_account_id(self.nonce);
        self.conclude_creation_at(address, who, members, threshold, now, funded)
    }

    /// Says whether an amount can be funded at all, which is decided
    /// before anything is known of the caller: fails with `ZeroAmount`
    /// where `amount` is zero.
    pub fn ensure_amount(amount: u128) -> (r: Result<(), Error>)
        ensures
            r == (if amount == 0 {
                Err::<(), Error>(Error::ZeroAmount)
            } else {
                Ok::<(), Error>(())
            }),
    {
        if amount == 0 {
            Err(Error::ZeroAmount)
        } else {
            Ok(())
        }
    }

    /// Funds a multisig from `who`, who can spend `spendable`. Anyone may
    /// fund a multisig; on success the answer asks the host to move the
    /// amount.
    ///
    /// Fails with `ZeroAmount` where `amount` is zero, else with
    /// `NotEnoughFunds` where `spendable` does not cover it, else with
    /// `MultisigDoesNotExist` where no account is registered under
    /// `multisig_id`.
    pub fn fund_multisig(&self, who: u64, multisig_id: u64, amount: u128, spendable: u128) -> (r:
        Result<Funding, Error>)
        requires
            self.wf(),
        ensures
            r == self@.fund_multisig(who, multisig_id, amount, spendable),
    {
        match Self::ensure_amount(amount) {
            Ok(_) => {},
            Err(refusal) => {
                return Err(refusal);
            },
        }
        if spendable < amount {
            return Err(Error::NotEnoughFunds);
        }
        if !self.multisigs.contains(multisig_id) {
            return Err(Error::MultisigDoesNotExist);
        }
        Ok(
            Funding {
                transfer: Transfer {
                    from: who,
                    to: multisig_id,
                    amount,
                    preservation: Preservation::Preserve,
                },
                event: Event::MultisigFunded { from: who, to: multisig_id, amount },
            },
        )
    }

    /// Keeps a new transaction under `id`: pending, proposed by `from` at
    /// block `now`, with `from`'s approval as its only vote. A transaction
    /// already kept under `id` for the same multisig is replaced.
    ///
    /// This is [`Pallet::build_transaction`] with the identifier given
    /// rather than derived.
    pub fn store_transaction(
        &mut self,
        id: [u8; 32],
        from: u64,
        multisig_id: u64,
        call: Vec<u8>,
        call_hash: [u8; 32],
        now: u64,
    ) -> (r: Result<Event, Error>)
        requires
            old(self).wf(),
        ensures
            final(self).wf(),
            r == Ok::<Event, Error>(old(self)@.store_transaction(id, from, multisig_id, call_hash)),
            final(self)@ == old(self)@.after_store_transaction(
                id,
                from,
                multisig_id,
                call@,
                call_hash,
                now,
            ),
    {
        let window = self.config.default_expiration_blocks;
        let transaction = match Transaction::new(from, call, call_hash, now, window) {
            Ok(transaction) => transaction,
            Err(e) => {
                return Err(e);
            },
        };
        self.transactions.insert(multisig_id, id, transaction);
        proof {
            self.transactions.lemma_finite();
        }
        Ok(
            Event::TransactionCreated {
                proposer: from,
                transaction: id,
                multisig: multisig_id,
                status: TransactionStatus::Pending,
                call_hash,
            },
        )
    }

    /// Builds and keeps the transaction that `from` proposes at block `now`
    /// for `call`, under the identifier derived from `from`, `now` and
    /// `call_hash`. Neither the multisig nor `from`'s membership is looked
    /// at: that is for [`Pallet::propose_transaction`].
    ///
    /// Always succeeds: the bound on votes leaves room for the proposer's
    /// own.
    pub fn build_transaction(
        &mut self,
        from: u64,
        multisig_id: u64,
        call: Vec<u8>,
        call_hash: [u8; 32],
        now: u64,
    ) -> (r: Result<Event, Error>)
        requires
            old(self).wf(),
        ensures
            final(self).wf(),
            r == Ok::<Event, Error>(
                old(self)@.build_transaction(from, multisig_id, call_hash, now),
            ),
            final(self)@ == old(self)@.after_build_transaction(
                from,
                multisig_id,
                call@,
                call_hash,
                now,
            ),
    {
        let id = derive_transaction_id(from, now, &call_hash);
        self.store_transaction(id, from, multisig_id, call, call_hash, now)
    }

    /// Proposes `call`, whose hash is `call_hash`, on behalf of a multisig.
    ///
    /// This is [`Pallet::propose_transaction`] with the hash given rather
    /// than computed.
    pub fn propose_hashed(
        &mut self,
        who: u64,
        multisig_id: u64,
        call: Vec<u8>,
        call_hash: [u8; 32],
        now: u64,
    ) -> (r: Result<Event, Error>)
        requires
            old(self).wf(),
        ensures
            final(self).wf(),
            r == old(self)@.propose_hashed(who, multisig_id, call_hash, now),
            final(self)@ == old(self)@.after_propose_hashed(
                who,
                multisig_id,
                call@,
                call_hash,
                now,
            ),
    {
        match self.multisigs.get(multisig_id) {
            None => {
                return Err(Error::MultisigDoesNotExist);
            },
            Some(multisig) => {
                if !members_contains(&multisig.members, who) {
                    return Err(Error::ProposerMustBeMember);
                }
            },
        }
        self.build_transaction(who, multisig_id, call, call_hash, now)
    }

    /// Proposes `call` on behalf of a multisig, at block `now`. The
    /// transaction is kept pending with the proposer's approval already
    /// cast.
    ///
    /// Fails with `MultisigDoesNotExist` where no account is registered
    /// under `multisig_id`, else with `ProposerMustBeMember` where `who` is
    /// not one of its members.
    pub fn propose_transaction(
        &mut self,
        who: u64,
        multisig_id: u64,
        call: Vec<u8>,
        now: u64,
    ) -> (r: Result<Event, Error>)
        requires
            old(self).wf(),
        ensures
            final(self).wf(),
            r == old(self)@.propose_transaction(who, multisig_id, call@, now),
            final(self)@ == old(self)@.after_propose_transaction(who, multisig_id, call@, now),
    {
        let call_hash = hash_call(&call);
        self.propose_hashed(who, multisig_id, call, call_hash, now)
    }

    /// Casts `who`'s vote on a pending transaction. A vote once cast stays
    /// as it is.
    ///
    /// Fails with `MultisigDoesNotExist` where no account is registered
    /// under `multisig_id`, else with `NotAMember` where `who` is not one of
    /// its members, else with `TransactionDoesNotExist` where the ledger
    /// keeps nothing under `transaction_id`, else with
    /// `TransactionNotPending` where the transaction is not pending, else
    /// with `AlreadyVoted` where `who` has a vote on record, else with
    /// `VoteLimitReached` where the votes are at their bound.
    pub fn vote(&mut self, who: u64, multisig_id: u64, transaction_id: [u8; 32], vote: Vote) -> (r:
        Result<Event, Error>)
        requires
            old(self).wf(),
        ensures
            final(self).wf(),
            r == old(self)@.vote(who, multisig_id, transaction_id, vote),
            final(self)@ == old(self)@.after_vote(who, multisig_id, transaction_id, vote),
    {
        match self.multisigs.get(multisig_id) {
            None => {
                return Err(Error::MultisigDoesNotExist);
            },
            Some(multisig) => {
                if !members_contains(&multisig.members, who) {
                    return Err(Error::NotAMember);
                }
            },
        }
        let call_hash = match self.transactions.get(multisig_id, &transaction_id) {
            None => {
                return Err(Error::TransactionDoesNotExist);
            },
            Some(transaction) => {
                match transaction.status {
                    TransactionStatus::Pending => {},
                    _ => {
                        return Err(Error::TransactionNotPending);
                    },
                }
                if votes_contains_key(&transaction.votes, who) {
                    return Err(Error::AlreadyVoted);
                }
                transaction.call_hash
            },
        };
        let ghost before = self@;
        let cast = self.transactions.cast_vote(multisig_id, &transaction_id, who, vote);
        proof {
            self.transactions.lemma_finite();
            let key = (multisig_id, transaction_id);
            let kept = before.transactions[key];
            assert(kept.votes.insert(who, vote).dom() =~= kept.votes.dom().insert(who));
            if kept.votes.dom().len() >= MAX_MEMBERS {
                assert(before.transactions.insert(key, kept) =~= before.transactions);
            }
        }
        match cast {
            Some(Ok(_)) => Ok(
                Event::TransactionVoted {
                    voter: who,
                    transaction: transaction_id,
                    multisig: multisig_id,
                    vote,
                    call_hash,
                },
            ),
            _ => Err(Error::VoteLimitReached),
        }
    }

    /// Looks at a submission of a transaction with a call whose digest is
    /// `digest`.
    ///
    /// This is [`Pallet::submit_transaction`] with the digest of the call
    /// given rather than computed.
    pub fn submit_hashed(
        &self,
        who: u64,
        multisig_id: u64,
        transaction_id: [u8; 32],
        digest: &[u8; 32],
        call_hash: [u8; 32],
    ) -> (r: Result<Submission, Error>)
        requires
            self.wf(),
        ensures
            r == self@.submit_hashed(who, multisig_id, transaction_id, *digest, call_hash),
    {
        let threshold = match self.multisigs.get(multisig_id) {
            None => {
                return Err(Error::MultisigDoesNotExist);
            },
            Some(multisig) => {
                if !members_contains(&multisig.members, who) {
                    return Err(Error::NotAMember);
                }
                multisig.threshold
            },
        };
        if !same_id(digest, &call_hash) {
            return Err(Error::MismatchingCallHash);
        }
        let transaction = match self.transactions.get(multisig_id, &transaction_id) {
            None => {
                return Err(Error::TransactionDoesNotExist);
            },
            Some(transaction) => transaction,
        };
        if !same_id(&transaction.call_hash, &call_hash) {
            return Err(Error::MismatchingCallHash);
        }
        let (approved, rejected) = match do_tally_votes(transaction.status, &transaction.votes) {
            Ok(tally) => tally,
            Err(e) => {
                return Err(e);
            },
        };
        Ok(
            Submission {
                submitter: who,
                multisig: multisig_id,
                transaction: transaction_id,
                call_hash,
                proposer: transaction.proposer,
                approvals: approved,
                rejections: rejected,
                quorum: approved >= threshold || rejected >= threshold,
            },
        )
    }

    /// Looks at a submission of a pending transaction with `call`: tallies
    /// the votes and says whether the approvals or the rejections reach the
    /// threshold. Where they do, the host dispatches `call` under the
    /// proposer's authority and hands the outcome to
    /// [`Pallet::conclude_submission`]. Nothing changes here.
    ///
    /// Fails with `MultisigDoesNotExist` where no account is registered
    /// under `multisig_id`, else with `NotAMember` where `who` is not one of
    /// its members, else with `MismatchingCallHash` where the digest of
    /// `call` is not `call_hash`, else with `TransactionDoesNotExist` where
    /// the ledger keeps nothing under `transaction_id`, else with
    /// `MismatchingCallHash` where `call_hash` is not the hash kept with the
    /// transaction, else with `TransactionNotPending` where the transaction
    /// is not pending.
    pub fn submit_transaction(
        &self,
        who: u64,
        multisig_id: u64,
        transaction_id: [u8; 32],
        call: &Vec<u8>,
        call_hash: [u8; 32],
    ) -> (r: Result<Submission, Error>)
        requires
            self.wf(),
        ensures
            r == self@.submit_transaction(who, multisig_id, transaction_id, call@, call_hash),
    {
        let digest = hash_call(call);
        self.submit_hashed(who, multisig_id, transaction_id, &digest, call_hash)
    }

    /// Concludes a submission once the host has tried what it asked for.
    /// `submission` is the answer that [`Pallet::submit_transaction`] gave.
    ///
    /// Without a quorum there was nothing to try and there is nothing to
    /// report. With one, a call that was dispatched takes its transaction
    /// out of the ledger and is reported as executed; a call whose dispatch
    /// failed gives `TransactionFailed` and the transaction stays pending.
    /// The call that was dispatched may itself have changed the registry
    /// and the ledger, so neither is looked at again here.
    pub fn conclude_submission(&mut self, submission: &Submission, dispatched: bool) -> (r: Result<
        Option<Event>,
        Error,
    >)
        requires
            old(self).wf(),
        ensures
            final(self).wf(),
            r == old(self)@.conclude_submission(*submission, dispatched),
            final(self)@ == old(self)@.after_conclude_submission(*submission, dispatched),
    {
        if !submission.quorum {
            return Ok(None);
        }
        if !dispatched {
            return Err(Error::TransactionFailed);
        }
        let _ = self.transactions.remove(submission.multisig, &submission.transaction);
        proof {
            self.transactions.lemma_finite();
        }
        Ok(
            Some(
                Event::TransactionExecuted {
                    submitter: submission.submitter,
                    transaction: submission.transaction,
                    multisig: submission.multisig,
                    approvals: submission.approvals,
                    rejections: submission.rejections,
                    status: TransactionStatus::Complete,
                    call_hash: submission.call_hash,
                },
            ),
        )
    }

    /// Answers a member's request to cancel a transaction. The request is
    /// checked and reported, and that is all: the transaction stays as it
    /// is. A group cancels by proposing this request as a call and voting
    /// on it.
    ///
    /// Fails with `MultisigDoesNotExist` where no account is registered
    /// under `multisig_id`, else with `NotAMember` where `who` is not one of
    /// its members, else with `TransactionDoesNotExist` where the ledger
    /// keeps nothing under `transaction_id`.
    pub fn cancel_transaction(&self, who: u64, multisig_id: u64, transaction_id: [u8; 32]) -> (r:
        Result<Event, Error>)
        requires
            self.wf(),
        ensures
            r == self@.cancel_transaction(who, multisig_id, transaction_id),
    {
        match self.multisigs.get(multisig_id) {
            None => {
                return Err(Error::MultisigDoesNotExist);
            },
            Some(multisig) => {
                if !members_contains(&multisig.members, who) {
                    return Err(Error::NotAMember);
                }
            },
        }
        match self.transactions.get(multisig_id, &transaction_id) {
            None => Err(Error::TransactionDoesNotExist),
            Some(transaction) => Ok(
                Event::TransactionCanceled {
                    submitter: who,
                    transaction: transaction_id,
                    multisig: multisig_id,
                    status: TransactionStatus::Canceled,
                    call_hash: transaction.call_hash,
                },
            ),
        }
    }

    /// Answers a member's request to delete a multisig: on success the host
    /// releases the creation deposit, sweeps the account's funds to its
    /// creator and hands the outcome to [`Pallet::conclude_deletion`].
    /// Nothing changes here.
    ///
    /// Fails with `MultisigDoesNotExist` where no account is registered
    /// under `multisig_id`, else with `NotAMember` where `who` is not one of
    /// its members.
    pub fn delete_multisig(&self, who: u64, multisig_id: u64) -> (r: Result<Sweep, Error>)
        requires
            self.wf(),
        ensures
            r == self@.delete_multisig(who, multisig_id),
    {
        match self.multisigs.get(multisig_id) {
            None => Err(Error::MultisigDoesNotExist),
            Some(multisig) => {
                if !members_contains(&multisig.members, who) {
                    return Err(Error::NotAMember);
                }
                Ok(
                    Sweep {
                        caller: who,
                        multisig: multisig_id,
                        creator: multisig.creator,
                        release: HoldReason::MultisigCreationDeposit,
                    },
                )
            },
        }
    }

    /// Concludes a deletion once the host has tried to sweep the funds. The
    /// request is looked at again, and fails as [`Pallet::delete_multisig`]
    /// would where no member of an existing multisig stands behind the
    /// sweep. A sweep that went through takes the account out of the
    /// registry and is reported; one that did not gives `TransferFailed`
    /// and the account stays. Transactions kept for the account stay in the
    /// ledger either way.
    pub fn conclude_deletion(&mut self, sweep: &Sweep, transferred: bool) -> (r: Result<
        Event,
        Error,
    >)
        requires
            old(self).wf(),
        ensures
            final(self).wf(),
            r == old(self)@.conclude_deletion(*sweep, transferred),
            final(self)@ == old(self)@.after_conclude_deletion(*sweep, transferred),
    {
        match self.delete_multisig(sweep.caller, sweep.multisig) {
            Err(refusal) => {
                return Err(refusal);
            },
            Ok(_) => {},
        }
        if !transferred {
            return Err(Error::TransferFailed);
        }
        let _ = self.multisigs.remove(sweep.multisig);
        proof {
            self.multisigs.lemma_finite();
        }
        Ok(Event::MultisigDeleted { from: sweep.caller, multisig: sweep.multisig })
    }
}

} // verus!
