//! Counting the votes cast on a transaction.
//!
//! Approvals and rejections are two independent counts over one vote map; a
//! tally is only taken of a transaction that is still pending.

use vstd::prelude::*;
use crate::bounded::{lists, vote_map, votes_entries, VoteMap, MAX_MEMBERS};
use crate::types::{Error, TransactionStatus, Vote};

verus! {

/// The voters whose recorded vote is `vote`.
pub open spec fn voters_for(votes: Map<u64, Vote>, vote: Vote) -> Set<u64> {
    votes.dom().filter(|who: u64| votes[who] == vote)
}

/// The number of approvals in a vote map.
pub open spec fn approvals(votes: Map<u64, Vote>) -> nat {
    voters_for(votes, Vote::Approve).len()
}

/// The number of rejections in a vote map.
pub open spec fn rejections(votes: Map<u64, Vote>) -> nat {
    voters_for(votes, Vote::Reject).len()
}

/// The tally of a transaction with the given status and votes: both counts
/// while it is pending, and a refusal in any other status.
pub open spec fn spec_tally(status: TransactionStatus, votes: Map<u64, Vote>) -> Result<
    (u32, u32),
    Error,
> {
    if status == TransactionStatus::Pending {
        Ok((approvals(votes) as u32, rejections(votes) as u32))
    } else {
        Err(Error::TransactionNotPending)
    }
}

/// The voters among the first `n` entries whose vote is `vote`.
spec fn listed_voters(entries: Seq<(u64, Vote)>, n: int, vote: Vote) -> Set<u64> {
    Set::new(|who: u64| exists|i: int| 0 <= i < n && #[trigger] entries[i] == (who, vote))
}

/// Taking one more entry of a listing into account adds its voter to the
/// voters for its vote, and to no others.
proof fn lemma_listed_voters_step(entries: Seq<(u64, Vote)>, n: int, vote: Vote)
    requires
        0 <= n < entries.len(),
        forall|i: int, j: int| 0 <= i < j < entries.len() ==> entries[i].0 < entries[j].0,
        listed_voters(entries, n, vote).finite(),
    ensures
        listed_voters(entries, n + 1, vote).finite(),
        listed_voters(entries, n + 1, vote).len() == listed_voters(entries, n, vote).len() + (
        if entries[n].1 == vote {
            1nat
        } else {
            0nat
        }),
{
    let before = listed_voters(entries, n, vote);
    let after = listed_voters(entries, n + 1, vote);
    if entries[n].1 == vote {
        let who = entries[n].0;
        assert(entries[n] == (who, vote));
        assert(!before.contains(who)) by {
            if before.contains(who) {
                let i = choose|i: int| 0 <= i < n && #[trigger] entries[i] == (who, vote);
                assert(entries[i].0 < entries[n].0);
            }
        }
        assert(after =~= before.insert(who));
    } else {
        assert(after =~= before);
    }
}

/// Every voter of a listed map appears in the listing with the vote that the
/// map records.
proof fn lemma_listing_covers(entries: Seq<(u64, Vote)>, votes: Map<u64, Vote>, vote: Vote)
    requires
        lists(entries, votes),
    ensures
        listed_voters(entries, entries.len() as int, vote) == voters_for(votes, vote),
{
    let listed = listed_voters(entries, entries.len() as int, vote);
    let voting = voters_for(votes, vote);
    assert forall|who: u64| listed.contains(who) implies voting.contains(who) by {
        let i = choose|i: int| 0 <= i < entries.len() && #[trigger] entries[i] == (who, vote);
        assert(votes.contains_key(entries[i].0));
    }
    assert forall|who: u64| voting.contains(who) implies listed.contains(who) by {
        let i = choose|i: int| 0 <= i < entries.len() && #[trigger] entries[i].0 == who;
        assert(votes.contains_key(entries[i].0));
        assert(entries[i] == (who, vote));
    }
    assert(listed =~= voting);
}

/// Counts the approvals and the rejections of a pending transaction.
///
/// Fails with `TransactionNotPending` in any other status, whatever the
/// votes.
pub fn do_tally_votes(status: TransactionStatus, votes: &VoteMap) -> (tally: Result<
    (u32, u32),
    Error,
>)
    ensures
        tally == spec_tally(status, vote_map(*votes)),
        status == TransactionStatus::Pending ==> (tally matches Ok((a, r)) && a == approvals(
            vote_map(*votes),
        ) && r == rejections(vote_map(*votes)) && a + r == vote_map(*votes).dom().len()),
        status != TransactionStatus::Pending ==> tally == Err::<(u32, u32), Error>(
            Error::TransactionNotPending,
        ),
{
    match status {
        TransactionStatus::Pending => {},
        _ => {
            return Err(Error::TransactionNotPending);
        },
    }
    let entries = votes_entries(votes);
    let mut approved: u32 = 0;
    let mut rejected: u32 = 0;
    let mut i: usize = 0;
    proof {
        assert(listed_voters(entries@, 0, Vote::Approve) =~= Set::<u64>::empty());
        assert(listed_voters(entries@, 0, Vote::Reject) =~= Set::<u64>::empty());
    }
    while i < entries.len()
        invariant
            0 <= i <= entries@.len() <= MAX_MEMBERS,
            forall|i: int, j: int| 0 <= i < j < entries@.len() ==> entries@[i].0 < entries@[j].0,
            listed_voters(entries@, i as int, Vote::Approve).finite(),
            listed_voters(entries@, i as int, Vote::Reject).finite(),
            approved == listed_voters(entries@, i as int, Vote::Approve).len(),
            rejected == listed_voters(entries@, i as int, Vote::Reject).len(),
            approved + rejected == i,
        decreases entries@.len() - i,
    {
        proof {
            lemma_listed_voters_step(entries@, i as int, Vote::Approve);
            lemma_listed_voters_step(entries@, i as int, Vote::Reject);
        }
        match entries[i].1 {
            Vote::Approve => {
                approved = approved + 1;
            },
            Vote::Reject => {
                rejected = rejected + 1;
            },
        }
        i = i + 1;
    }
    proof {
        lemma_listing_covers(entries@, vote_map(*votes), Vote::Approve);
        lemma_listing_covers(entries@, vote_map(*votes), Vote::Reject);
    }
    Ok((approved, rejected))
}

} // verus!
