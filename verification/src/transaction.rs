//! The record of a proposed transaction.

use vstd::prelude::*;
use crate::bounded::{
    lists,
    vote_map,
    votes_clone,
    votes_entries,
    votes_new,
    votes_try_insert,
    VoteMap,
    MAX_MEMBERS,
};
use crate::types::{Error, TransactionStatus, Vote};

verus! {

/// A proposed transaction as the ledger keeps it.
#[derive(Debug)]
pub struct Transaction {
    /// The proposer of the transaction.
    pub proposer: u64,
    /// The status of the transaction.
    pub status: TransactionStatus,
    /// The call to be executed, encoded.
    pub call: Vec<u8>,
    /// The hash of the call.
    pub call_hash: [u8; 32],
    /// The votes cast on the transaction.
    pub votes: VoteMap,
    /// The block number at which the transaction was created.
    pub created_at: u64,
    /// The block number after which the transaction counts as expired.
    pub expires_at: u64,
}

/// What a transaction holds, as mathematics.
pub struct TransactionView {
    pub proposer: u64,
    pub status: TransactionStatus,
    pub call: Seq<u8>,
    pub call_hash: [u8; 32],
    pub votes: Map<u64, Vote>,
    pub created_at: u64,
    pub expires_at: u64,
}

impl TransactionView {
    /// The votes are within the bound and the proposer's approval is among
    /// them.
    pub open spec fn wf(self) -> bool {
        &&& self.votes.dom().finite()
        &&& self.votes.dom().len() <= MAX_MEMBERS
        &&& self.votes.contains_key(self.proposer)
        &&& self.votes[self.proposer] == Vote::Approve
    }
}

impl View for Transaction {
    type V = TransactionView;

    open spec fn view(&self) -> TransactionView {
        TransactionView {
            proposer: self.proposer,
            status: self.status,
            call: self.call@,
            call_hash: self.call_hash,
            votes: vote_map(self.votes),
            created_at: self.created_at,
            expires_at: self.expires_at,
        }
    }
}

/// The block number at which a transaction created at `created_at` expires:
/// `window` blocks later, or at the last block number if that is nearer.
pub open spec fn expiry(created_at: u64, window: u64) -> u64 {
    if created_at + window > u64::MAX {
        u64::MAX
    } else {
        (created_at + window) as u64
    }
}

/// The transaction that a proposal starts as: pending, with the proposer's
/// approval as its only vote.
pub open spec fn proposed(
    proposer: u64,
    call: Seq<u8>,
    call_hash: [u8; 32],
    now: u64,
    window: u64,
) -> TransactionView {
    TransactionView {
        proposer,
        status: TransactionStatus::Pending,
        call,
        call_hash,
        votes: Map::<u64, Vote>::empty().insert(proposer, Vote::Approve),
        created_at: now,
        expires_at: expiry(now, window),
    }
}

/// The vote that `who` has on record, if any. The votes on record are
/// within the bound.
pub fn vote_of(votes: &VoteMap, who: u64) -> (r: Option<Vote>)
    ensures
        r is Some <==> vote_map(*votes).contains_key(who),
        r matches Some(vote) ==> vote == vote_map(*votes)[who],
        vote_map(*votes).dom().finite(),
        vote_map(*votes).dom().len() <= MAX_MEMBERS,
{
    let entries = votes_entries(votes);
    let mut i: usize = 0;
    while i < entries.len()
        invariant
            i <= entries@.len() <= MAX_MEMBERS,
            lists(entries@, vote_map(*votes)),
            forall|j: int| 0 <= j < i ==> entries@[j].0 != who,
        decreases entries@.len() - i,
    {
        if entries[i].0 == who {
            assert(vote_map(*votes).contains_key(entries@[i as int].0));
            return Some(entries[i].1);
        }
        i = i + 1;
    }
    proof {
        if vote_map(*votes).contains_key(who) {
            let j = choose|j: int| 0 <= j < entries@.len() && #[trigger] entries@[j].0 == who;
            assert(entries@[j].0 != who);
        }
    }
    None
}

impl Clone for Transaction {
    /// A record that holds the same values.
    fn clone(&self) -> (c: Self)
        ensures
            c@ == self@,
    {
        let call = self.call.clone();
        assert(call@ =~= self.call@);
        Transaction {
            proposer: self.proposer,
            status: self.status,
            call,
            call_hash: self.call_hash,
            votes: votes_clone(&self.votes),
            created_at: self.created_at,
            expires_at: self.expires_at,
        }
    }
}

impl Transaction {
    /// Whether the votes are within the bound and the proposer's approval is
    /// among them.
    pub fn is_well_formed(&self) -> (b: bool)
        ensures
            b == self@.wf(),
    {
        match vote_of(&self.votes, self.proposer) {
            Some(Vote::Approve) => true,
            _ => false,
        }
    }

    /// Whether the transaction expires `window` blocks after its creation.
    pub fn expires_after(&self, window: u64) -> (b: bool)
        ensures
            b == (self.expires_at == expiry(self.created_at, window)),
    {
        self.expires_at == self.created_at.saturating_add(window)
    }

    /// Starts a transaction for `call`, proposed by `proposer` at block `now`,
    /// with the proposer's approval already cast.
    ///
    /// `VoteLimitReached` would be the answer of a vote map with no room for
    /// one vote; the bound rules that out.
    pub fn new(proposer: u64, call: Vec<u8>, call_hash: [u8; 32], now: u64, window: u64) -> (r:
        Result<Transaction, Error>)
        ensures
            r is Ok,
            r->Ok_0@ == proposed(proposer, call@, call_hash, now, window),
            r->Ok_0@.wf(),
    {
        let mut votes = votes_new();
        proof {
            assert(vote_map(votes).dom() =~= Set::<u64>::empty());
        }
        match votes_try_insert(&mut votes, proposer, Vote::Approve) {
            Ok(_) => {},
            Err(_) => {
                return Err(Error::VoteLimitReached);
            },
        }
        proof {
            assert(vote_map(votes).dom() =~= Set::<u64>::empty().insert(proposer));
        }
        Ok(
            Transaction {
                proposer,
                status: TransactionStatus::Pending,
                call,
                call_hash,
                votes,
                created_at: now,
                expires_at: now.saturating_add(window),
            },
        )
    }
}

} // verus!
