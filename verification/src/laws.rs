//! What holds of the lifecycle in every state, proved of the model that the
//! operations are verified against.

use vstd::prelude::*;
use vstd::set_lib::{lemma_len_subset, lemma_set_disjoint_lens};
use crate::account::MultisigAccountView;
use crate::bounded::MAX_MEMBERS;
use crate::identity::{call_hash_of, spec_account_id, spec_transaction_id};
use crate::model::{resolved_threshold, total_deposit, PalletView};
use crate::tally::{approvals, rejections, spec_tally, voters_for};
use crate::transaction::{expiry, proposed, TransactionView};
use crate::types::{
    Config,
    Deposit,
    Error,
    Event,
    Funding,
    Submission,
    Sweep,
    TransactionStatus,
    Vote,
};

verus! {

/// Deriving an address is a function of the nonce: the same nonce gives the
/// same address, whoever derives it and whenever.
pub proof fn lemma_account_id_deterministic(nonce1: u64, nonce2: u64)
    requires
        nonce1 == nonce2,
    ensures
        spec_account_id(nonce1) == spec_account_id(nonce2),
{
}

/// Deriving a transaction identifier is a function of the proposer, the
/// height and the call hash.
pub proof fn lemma_transaction_id_deterministic(
    proposer1: u64,
    height1: u64,
    call_hash1: [u8; 32],
    proposer2: u64,
    height2: u64,
    call_hash2: [u8; 32],
)
    requires
        proposer1 == proposer2,
        height1 == height2,
        call_hash1 == call_hash2,
    ensures
        spec_transaction_id(proposer1, height1, call_hash1) == spec_transaction_id(
            proposer2,
            height2,
            call_hash2,
        ),
{
}

/// The tally of a pending transaction is the number of voters on record who
/// approve and the number who reject; in any other status the tally fails
/// with `TransactionNotPending`.
pub proof fn lemma_tally(status: TransactionStatus, votes: Map<u64, Vote>)
    requires
        votes.dom().finite(),
        votes.dom().len() <= MAX_MEMBERS,
    ensures
        status == TransactionStatus::Pending ==> (spec_tally(status, votes) matches Ok((a, r))
            && a == approvals(votes) && r == rejections(votes)),
        status != TransactionStatus::Pending ==> spec_tally(status, votes) == Err::<
            (u32, u32),
            Error,
        >(Error::TransactionNotPending),
        forall|who: u64|
            voters_for(votes, Vote::Approve).contains(who) <==> votes.contains_key(who)
                && votes[who] == Vote::Approve,
        forall|who: u64|
            voters_for(votes, Vote::Reject).contains(who) <==> votes.contains_key(who)
                && votes[who] == Vote::Reject,
{
    lemma_tally_counts_every_vote(votes);
}

/// Every vote is an approval or a rejection, and none is both: the two
/// counts add up to the number of votes cast.
pub proof fn lemma_tally_counts_every_vote(votes: Map<u64, Vote>)
    requires
        votes.dom().finite(),
    ensures
        approvals(votes) + rejections(votes) == votes.dom().len(),
{
    let approving = voters_for(votes, Vote::Approve);
    let rejecting = voters_for(votes, Vote::Reject);
    assert(approving.disjoint(rejecting));
    assert(approving.union(rejecting) =~= votes.dom());
    lemma_set_disjoint_lens(approving, rejecting);
}

/// A transaction as proposed carries one approval, the proposer's, and no
/// rejection.
pub proof fn lemma_proposed_has_one_approval(
    proposer: u64,
    call: Seq<u8>,
    call_hash: [u8; 32],
    now: u64,
    window: u64,
)
    ensures
        proposed(proposer, call, call_hash, now, window).wf(),
        proposed(proposer, call, call_hash, now, window).votes[proposer] == Vote::Approve,
        approvals(proposed(proposer, call, call_hash, now, window).votes) == 1,
        rejections(proposed(proposer, call, call_hash, now, window).votes) == 0,
{
    let votes = proposed(proposer, call, call_hash, now, window).votes;
    assert(votes.dom() =~= set![proposer]);
    assert(voters_for(votes, Vote::Approve) =~= set![proposer]);
    assert(voters_for(votes, Vote::Reject) =~= Set::<u64>::empty());
}

/// Creating a multisig whose creator is not among the members fails with
/// `ProposerMustBeMember`, whatever else is asked, in either step, and
/// nothing changes.
pub proof fn lemma_creator_must_be_member(
    state: PalletView,
    who: u64,
    members: Set<u64>,
    threshold: Option<u32>,
    now: u64,
    spendable: u128,
    funded: bool,
)
    requires
        !members.contains(who),
    ensures
        state.create_multisig(who, members, threshold, spendable) == Err::<Deposit, Error>(
            Error::ProposerMustBeMember,
        ),
        state.conclude_creation(who, members, threshold, funded) == Err::<Event, Error>(
            Error::ProposerMustBeMember,
        ),
        state.after_conclude_creation(who, members, threshold, now, funded) == state,
{
}

/// Creating a multisig with a threshold above the number of members fails
/// with `ThresholdTooHigh`, where the creator is one of the members, in
/// either step, and nothing changes.
pub proof fn lemma_threshold_too_high(
    state: PalletView,
    who: u64,
    members: Set<u64>,
    threshold: Option<u32>,
    now: u64,
    spendable: u128,
    funded: bool,
)
    requires
        members.contains(who),
        resolved_threshold(state.config, threshold) > members.len(),
    ensures
        state.create_multisig(who, members, threshold, spendable) == Err::<Deposit, Error>(
            Error::ThresholdTooHigh,
        ),
        state.conclude_creation(who, members, threshold, funded) == Err::<Event, Error>(
            Error::ThresholdTooHigh,
        ),
        state.after_conclude_creation(who, members, threshold, now, funded) == state,
{
}

/// Creating a multisig with a threshold of zero fails, with
/// `ThresholdTooHigh` where the creator is one of the members, and nothing
/// changes: no multisig goes ahead without a vote.
pub proof fn lemma_threshold_of_zero(
    state: PalletView,
    who: u64,
    members: Set<u64>,
    threshold: Option<u32>,
    now: u64,
    spendable: u128,
    funded: bool,
)
    requires
        resolved_threshold(state.config, threshold) == 0,
    ensures
        state.create_multisig(who, members, threshold, spendable) is Err,
        state.conclude_creation(who, members, threshold, funded) is Err,
        members.contains(who) ==> state.create_multisig(who, members, threshold, spendable)
            == Err::<Deposit, Error>(Error::ThresholdTooHigh),
        members.contains(who) ==> state.conclude_creation(who, members, threshold, funded)
            == Err::<Event, Error>(Error::ThresholdTooHigh),
        state.after_conclude_creation(who, members, threshold, now, funded) == state,
{
}

/// A request to create that is answered asks for the deposit and one unit
/// more to be moved from the creator into the derived address and for the
/// deposit to be held there, and a creation concluded on the same request
/// with the funds in place goes through.
pub proof fn lemma_creation_asks_for_the_deposit(
    state: PalletView,
    who: u64,
    members: Set<u64>,
    threshold: Option<u32>,
    spendable: u128,
)
    requires
        state.create_multisig(who, members, threshold, spendable) is Ok,
    ensures
        ({
            let deposit = state.create_multisig(who, members, threshold, spendable)->Ok_0;
            let address = spec_account_id(state.nonce);
            &&& spendable >= state.config.multisig_deposit
            &&& deposit.transfer.from == who
            &&& deposit.transfer.to == address
            &&& deposit.transfer.amount == total_deposit(state.config)
            &&& deposit.transfer.amount >= state.config.multisig_deposit
            &&& deposit.hold.account == address
            &&& deposit.hold.amount == state.config.multisig_deposit
            &&& state.conclude_creation(who, members, threshold, true) == Ok::<Event, Error>(
                Event::NewMultisig { creator: who, multisig: address },
            )
        }),
{
}

/// A creation goes through exactly where the creator is a member, the
/// threshold is in range and the deposit was moved and held.
pub proof fn lemma_creation_goes_through(
    state: PalletView,
    who: u64,
    members: Set<u64>,
    threshold: Option<u32>,
    funded: bool,
)
    ensures
        state.conclude_creation(who, members, threshold, funded) is Ok
            <==> state.creation_goes_through(who, members, threshold, funded),
        state.creation_goes_through(who, members, threshold, funded) <==> members.contains(who)
            && 1 <= resolved_threshold(state.config, threshold) <= members.len() && funded,
{
}

/// A creation whose deposit was not moved or not held fails, with
/// `TransferFailed` where the request is in order, and leaves the nonce and
/// the registry as they were.
pub proof fn lemma_unfunded_creation_changes_nothing(
    state: PalletView,
    who: u64,
    members: Set<u64>,
    threshold: Option<u32>,
    now: u64,
    spendable: u128,
)
    ensures
        state.conclude_creation(who, members, threshold, false) is Err,
        state.create_multisig(who, members, threshold, spendable) is Ok
            ==> state.conclude_creation(who, members, threshold, false) == Err::<Event, Error>(
            Error::TransferFailed,
        ),
        state.after_conclude_creation(who, members, threshold, now, false) == state,
{
}

/// A multisig that was created is registered under the derived address with
/// the members and the threshold asked for, and is well formed: its creator
/// is a member and its threshold asks for one vote at least and for no more
/// than there are members.
pub proof fn lemma_created_is_registered(
    state: PalletView,
    who: u64,
    members: Set<u64>,
    threshold: Option<u32>,
    now: u64,
    funded: bool,
)
    requires
        members.finite(),
        members.len() <= MAX_MEMBERS,
        state.conclude_creation(who, members, threshold, funded) is Ok,
    ensures
        funded,
        ({
            let after = state.after_conclude_creation(who, members, threshold, now, funded);
            let address = spec_account_id(state.nonce);
            &&& after.multisigs.contains_key(address)
            &&& after.multisigs[address].creator == who
            &&& after.multisigs[address].members == members
            &&& after.multisigs[address].threshold == resolved_threshold(state.config, threshold)
            &&& after.multisigs[address].created_at == now
            &&& after.multisigs[address].wf()
            &&& after.multisigs[address].members.contains(who)
            &&& 1 <= after.multisigs[address].threshold <= members.len()
        }),
{
}

/// The nonce moves on by one with each multisig created and stands still
/// otherwise, so that no two creations derive their address from the same
/// nonce.
pub proof fn lemma_nonce_moves_on(
    state: PalletView,
    who: u64,
    members: Set<u64>,
    threshold: Option<u32>,
    now: u64,
    funded: bool,
    multisig: u64,
    id: [u8; 32],
    call: Seq<u8>,
    vote: Vote,
    submission: Submission,
    dispatched: bool,
    sweep: Sweep,
    transferred: bool,
)
    requires
        state.nonce < u64::MAX,
    ensures
        state.conclude_creation(who, members, threshold, funded) is Ok
            ==> state.after_conclude_creation(who, members, threshold, now, funded).nonce
            == state.nonce + 1,
        state.conclude_creation(who, members, threshold, funded) is Err
            ==> state.after_conclude_creation(who, members, threshold, now, funded).nonce
            == state.nonce,
        state.after_propose_transaction(who, multisig, call, now).nonce == state.nonce,
        state.after_vote(who, multisig, id, vote).nonce == state.nonce,
        state.after_conclude_submission(submission, dispatched).nonce == state.nonce,
        state.after_conclude_deletion(sweep, transferred).nonce == state.nonce,
{
}

/// Funding with an amount of zero fails with `ZeroAmount`, whatever the
/// caller can spend and whether or not the multisig exists.
pub proof fn lemma_zero_amount(state: PalletView, who: u64, multisig: u64, spendable: u128)
    ensures
        state.fund_multisig(who, multisig, 0, spendable) == Err::<Funding, Error>(
            Error::ZeroAmount,
        ),
{
}

/// A member who has voted on a pending transaction cannot vote again: the
/// second vote fails with `AlreadyVoted`, and the votes on record stay as
/// they were.
pub proof fn lemma_no_second_vote(
    state: PalletView,
    who: u64,
    multisig: u64,
    id: [u8; 32],
    first: Vote,
    second: Vote,
)
    requires
        state.vote(who, multisig, id, first) is Ok,
    ensures
        ({
            let voted = state.after_vote(who, multisig, id, first);
            &&& voted.transactions[(multisig, id)].votes[who] == first
            &&& voted.vote(who, multisig, id, second) == Err::<Event, Error>(
                Error::AlreadyVoted,
            )
            &&& voted.after_vote(who, multisig, id, second) == voted
        }),
{
}

/// Whoever has a vote on record for a pending transaction is turned down
/// with `AlreadyVoted`, however the vote came to be there.
pub proof fn lemma_already_voted(
    state: PalletView,
    who: u64,
    multisig: u64,
    id: [u8; 32],
    vote: Vote,
)
    requires
        state.is_member(multisig, who),
        state.transactions.contains_key((multisig, id)),
        state.transactions[(multisig, id)].status == TransactionStatus::Pending,
        state.transactions[(multisig, id)].votes.contains_key(who),
    ensures
        state.vote(who, multisig, id, vote) == Err::<Event, Error>(
            Error::AlreadyVoted,
        ),
        state.after_vote(who, multisig, id, vote) == state,
{
}

/// A vote adds one vote and touches no other: every vote cast before is
/// still on record, unchanged, and the count has grown by one.
pub proof fn lemma_vote_keeps_votes(
    state: PalletView,
    who: u64,
    multisig: u64,
    id: [u8; 32],
    vote: Vote,
)
    requires
        state.wf(),
        state.vote(who, multisig, id, vote) is Ok,
    ensures
        ({
            let before = state.transactions[(multisig, id)].votes;
            let voted = state.after_vote(who, multisig, id, vote);
            let after = voted.transactions[(multisig, id)].votes;
            &&& forall|voter: u64| #[trigger]
                before.contains_key(voter) ==> after.contains_key(voter) && after[voter]
                    == before[voter]
            &&& after.dom().len() == before.dom().len() + 1
        }),
{
    let before = state.transactions[(multisig, id)].votes;
    assert(state.transactions.contains_key((multisig, id)));
    assert(before.insert(who, vote).dom() =~= before.dom().insert(who));
}

/// A submission whose call does not hash to the hash supplied with it fails
/// with `MismatchingCallHash` before the transaction is looked up or
/// tallied, where the caller is a member of the multisig.
pub proof fn lemma_mismatching_call_hash(
    state: PalletView,
    who: u64,
    multisig: u64,
    id: [u8; 32],
    digest: [u8; 32],
    call_hash: [u8; 32],
)
    requires
        state.is_member(multisig, who),
        digest != call_hash,
    ensures
        state.submit_hashed(who, multisig, id, digest, call_hash) == Err::<Submission, Error>(
            Error::MismatchingCallHash,
        ),
{
}

/// A call other than the one proposed does not go ahead: a member who
/// submits a transaction with a call whose hash is not the hash kept with
/// the transaction is turned down with `MismatchingCallHash`, whatever the
/// votes, even where the call hashes to the hash supplied with it.
pub proof fn lemma_substituted_call_is_turned_down(
    state: PalletView,
    who: u64,
    multisig: u64,
    id: [u8; 32],
    digest: [u8; 32],
    call_hash: [u8; 32],
)
    requires
        state.is_member(multisig, who),
        state.transactions.contains_key((multisig, id)),
        digest != state.transactions[(multisig, id)].call_hash,
    ensures
        state.submit_hashed(who, multisig, id, digest, call_hash) == Err::<Submission, Error>(
            Error::MismatchingCallHash,
        ),
{
}

/// A submission that is answered carries the hash kept with the
/// transaction, and the call it was made with hashes to it.
pub proof fn lemma_submission_carries_stored_hash(
    state: PalletView,
    who: u64,
    multisig: u64,
    id: [u8; 32],
    digest: [u8; 32],
    call_hash: [u8; 32],
)
    requires
        state.submit_hashed(who, multisig, id, digest, call_hash) is Ok,
    ensures
        ({
            let submission = state.submit_hashed(who, multisig, id, digest, call_hash)->Ok_0;
            let kept = state.transactions[(multisig, id)];
            &&& state.is_member(multisig, who)
            &&& state.transactions.contains_key((multisig, id))
            &&& kept.status == TransactionStatus::Pending
            &&& submission.call_hash == kept.call_hash
            &&& digest == kept.call_hash
            &&& submission.multisig == multisig
            &&& submission.transaction == id
            &&& submission.submitter == who
        }),
{
}

/// A transaction is executed once: when its call has been dispatched it is
/// gone from the ledger, and no later submission, vote or cancellation finds
/// it.
pub proof fn lemma_executed_once(
    state: PalletView,
    submission: Submission,
    who: u64,
    digest: [u8; 32],
    call_hash: [u8; 32],
    vote: Vote,
)
    requires
        submission.quorum,
    ensures
        ({
            let after = state.after_conclude_submission(submission, true);
            let multisig = submission.multisig;
            let id = submission.transaction;
            &&& !after.transactions.contains_key((multisig, id))
            &&& !(after.submit_hashed(who, multisig, id, digest, call_hash) is Ok)
            &&& !(after.vote(who, multisig, id, vote) is Ok)
            &&& !(after.cancel_transaction(who, multisig, id) is Ok)
        }),
{
}

/// A call whose dispatch failed leaves its transaction where it was: the
/// submission fails with `TransactionFailed` and nothing changes.
pub proof fn lemma_failed_dispatch_keeps_transaction(state: PalletView, submission: Submission)
    requires
        submission.quorum,
    ensures
        state.conclude_submission(submission, false) == Err::<Option<Event>, Error>(
            Error::TransactionFailed,
        ),
        state.after_conclude_submission(submission, false) == state,
{
}

/// Deleting a multisig a second time fails with `MultisigDoesNotExist`, for
/// any caller, so that no funds are asked to move again.
pub proof fn lemma_delete_twice(state: PalletView, who: u64, multisig: u64, again: u64)
    requires
        state.delete_multisig(who, multisig) is Ok,
    ensures
        ({
            let sweep = state.delete_multisig(who, multisig)->Ok_0;
            let after = state.after_conclude_deletion(sweep, true);
            &&& sweep.multisig == multisig
            &&& sweep.creator == state.multisigs[multisig].creator
            &&& !after.multisigs.contains_key(multisig)
            &&& after.delete_multisig(again, multisig) == Err::<Sweep, Error>(
                Error::MultisigDoesNotExist,
            )
        }),
{
}

/// A sweep that did not go through leaves the multisig registered: the
/// deletion fails, with `TransferFailed` where a member asked for it, and
/// nothing changes.
pub proof fn lemma_failed_sweep_keeps_multisig(state: PalletView, sweep: Sweep)
    ensures
        state.conclude_deletion(sweep, false) is Err,
        state.is_member(sweep.multisig, sweep.caller) ==> state.conclude_deletion(sweep, false)
            == Err::<Event, Error>(Error::TransferFailed),
        state.after_conclude_deletion(sweep, false) == state,
{
}

/// An account leaves the registry only on the request of one of its
/// members, and only once its funds have been swept.
pub proof fn lemma_only_members_delete(
    state: PalletView,
    sweep: Sweep,
    transferred: bool,
    address: u64,
)
    requires
        state.multisigs.contains_key(address),
        !state.after_conclude_deletion(sweep, transferred).multisigs.contains_key(address),
    ensures
        address == sweep.multisig,
        state.multisigs[address].members.contains(sweep.caller),
        transferred,
{
}

/// Deleting a multisig leaves its transactions in the ledger.
pub proof fn lemma_deletion_keeps_transactions(state: PalletView, sweep: Sweep, transferred: bool)
    ensures
        state.after_conclude_deletion(sweep, transferred).transactions == state.transactions,
{
}

/// An account leaves the registry by a concluded deletion and in no other
/// way: creating, proposing, voting and concluding a submission keep every
/// registered account.
pub proof fn lemma_only_deletion_removes(
    state: PalletView,
    address: u64,
    who: u64,
    members: Set<u64>,
    threshold: Option<u32>,
    now: u64,
    funded: bool,
    multisig: u64,
    id: [u8; 32],
    call: Seq<u8>,
    call_hash: [u8; 32],
    vote: Vote,
    submission: Submission,
    dispatched: bool,
)
    requires
        state.multisigs.contains_key(address),
    ensures
        state.after_conclude_creation(who, members, threshold, now, funded).multisigs.contains_key(
            address,
        ),
        state.after_build_transaction(who, multisig, call, call_hash, now).multisigs
            == state.multisigs,
        state.after_propose_transaction(who, multisig, call, now).multisigs == state.multisigs,
        state.after_vote(who, multisig, id, vote).multisigs == state.multisigs,
        state.after_conclude_submission(submission, dispatched).multisigs == state.multisigs,
{
}

/// Concluding a creation keeps the state well formed, for members within
/// the bound.
pub proof fn lemma_create_keeps_wf(
    state: PalletView,
    who: u64,
    members: Set<u64>,
    threshold: Option<u32>,
    now: u64,
    funded: bool,
)
    requires
        state.wf(),
        members.finite(),
        members.len() <= MAX_MEMBERS,
    ensures
        state.after_conclude_creation(who, members, threshold, now, funded).wf(),
{
    let after = state.after_conclude_creation(who, members, threshold, now, funded);
    assert forall|address: u64| #[trigger]
        after.multisigs.contains_key(address) implies after.multisigs[address].wf() by {
        if address != spec_account_id(state.nonce) {
            assert(state.multisigs.contains_key(address));
        }
    }
}

/// Building and proposing a transaction keep the state well formed.
pub proof fn lemma_propose_keeps_wf(
    state: PalletView,
    who: u64,
    multisig: u64,
    call: Seq<u8>,
    call_hash: [u8; 32],
    now: u64,
)
    requires
        state.wf(),
    ensures
        state.after_build_transaction(who, multisig, call, call_hash, now).wf(),
        state.after_propose_transaction(who, multisig, call, now).wf(),
{
    let id = spec_transaction_id(who, now, call_hash);
    lemma_store_keeps_wf(state, id, who, multisig, call, call_hash, now);
    let hash = call_hash_of(call);
    let id = spec_transaction_id(who, now, hash);
    lemma_store_keeps_wf(state, id, who, multisig, call, hash, now);
}

/// Keeping a new transaction under any identifier keeps the state well
/// formed.
pub proof fn lemma_store_keeps_wf(
    state: PalletView,
    id: [u8; 32],
    from: u64,
    multisig: u64,
    call: Seq<u8>,
    call_hash: [u8; 32],
    now: u64,
)
    requires
        state.wf(),
    ensures
        state.after_store_transaction(id, from, multisig, call, call_hash, now).wf(),
{
    let after = state.after_store_transaction(id, from, multisig, call, call_hash, now);
    lemma_proposed_has_one_approval(
        from,
        call,
        call_hash,
        now,
        state.config.default_expiration_blocks,
    );
    let votes = proposed(from, call, call_hash, now, state.config.default_expiration_blocks).votes;
    assert(votes.dom() =~= set![from]);
    assert forall|key: (u64, [u8; 32])| #[trigger]
        after.transactions.contains_key(key) implies after.transactions[key].wf() by {
        if key != (multisig, id) {
            assert(state.transactions.contains_key(key));
        }
    }
    assert forall|key: (u64, [u8; 32])| #[trigger]
        after.transactions.contains_key(key) implies after.transactions[key].expires_at
        == expiry(
        after.transactions[key].created_at,
        after.config.default_expiration_blocks,
    ) by {
        if key != (multisig, id) {
            assert(state.transactions.contains_key(key));
        }
    }
}

/// Voting keeps the state well formed.
pub proof fn lemma_vote_keeps_wf(
    state: PalletView,
    who: u64,
    multisig: u64,
    id: [u8; 32],
    vote: Vote,
)
    requires
        state.wf(),
    ensures
        state.after_vote(who, multisig, id, vote).wf(),
{
    let after = state.after_vote(who, multisig, id, vote);
    if state.vote(who, multisig, id, vote) is Ok {
        let before = state.transactions[(multisig, id)].votes;
        assert(state.transactions.contains_key((multisig, id)));
        assert(before.insert(who, vote).dom() =~= before.dom().insert(who));
        assert forall|key: (u64, [u8; 32])| #[trigger]
            after.transactions.contains_key(key) implies after.transactions[key].wf()
            && after.transactions[key].expires_at == expiry(
            after.transactions[key].created_at,
            after.config.default_expiration_blocks,
        ) by {
            assert(state.transactions.contains_key(key));
        }
    }
}

/// Concluding a submission and concluding a deletion keep the state well
/// formed.
pub proof fn lemma_conclusions_keep_wf(
    state: PalletView,
    submission: Submission,
    dispatched: bool,
    sweep: Sweep,
    transferred: bool,
)
    requires
        state.wf(),
    ensures
        state.after_conclude_submission(submission, dispatched).wf(),
        state.after_conclude_deletion(sweep, transferred).wf(),
{
    let after = state.after_conclude_submission(submission, dispatched);
    assert forall|key: (u64, [u8; 32])| #[trigger]
        after.transactions.contains_key(key) implies after.transactions[key].wf()
        && after.transactions[key].expires_at == expiry(
        after.transactions[key].created_at,
        after.config.default_expiration_blocks,
    ) by {
        assert(state.transactions.contains_key(key));
    }
    let gone = state.after_conclude_deletion(sweep, transferred);
    assert forall|address: u64| #[trigger]
        gone.multisigs.contains_key(address) implies gone.multisigs[address].wf() by {
        assert(state.multisigs.contains_key(address));
    }
}

/// A transaction that is not pending is neither voted on nor submitted.
pub proof fn lemma_only_pending_is_touched(
    state: PalletView,
    who: u64,
    multisig: u64,
    id: [u8; 32],
    vote: Vote,
    digest: [u8; 32],
    call_hash: [u8; 32],
)
    requires
        state.transactions.contains_key((multisig, id)),
        state.transactions[(multisig, id)].status != TransactionStatus::Pending,
    ensures
        !(state.vote(who, multisig, id, vote) is Ok),
        state.after_vote(who, multisig, id, vote) == state,
        !(state.submit_hashed(who, multisig, id, digest, call_hash) is Ok),
        state.is_member(multisig, who) ==> state.vote(who, multisig, id, vote) == Err::<
            Event,
            Error,
        >(Error::TransactionNotPending),
        state.is_member(multisig, who) && digest == call_hash && call_hash
            == state.transactions[(multisig, id)].call_hash ==> state.submit_hashed(
            who,
            multisig,
            id,
            digest,
            call_hash,
        ) == Err::<Submission, Error>(Error::TransactionNotPending),
{
}

/// A submission reports a quorum exactly where the approvals or the
/// rejections reach the threshold of the multisig, and names the proposer
/// as the authority for the call.
pub proof fn lemma_quorum(
    state: PalletView,
    who: u64,
    multisig: u64,
    id: [u8; 32],
    digest: [u8; 32],
    call_hash: [u8; 32],
)
    requires
        state.wf(),
        state.submit_hashed(who, multisig, id, digest, call_hash) is Ok,
    ensures
        ({
            let submission = state.submit_hashed(who, multisig, id, digest, call_hash)->Ok_0;
            let kept = state.transactions[(multisig, id)];
            let threshold = state.multisigs[multisig].threshold;
            &&& submission.approvals == approvals(kept.votes)
            &&& submission.rejections == rejections(kept.votes)
            &&& submission.approvals + submission.rejections == kept.votes.dom().len()
            &&& submission.approvals >= 1
            &&& submission.proposer == kept.proposer
            &&& submission.quorum <==> (submission.approvals >= threshold || submission.rejections
                >= threshold)
        }),
{
    let kept = state.transactions[(multisig, id)];
    assert(state.transactions.contains_key((multisig, id)));
    lemma_tally_counts_every_vote(kept.votes);
    assert(voters_for(kept.votes, Vote::Approve).contains(kept.proposer));
    assert(voters_for(kept.votes, Vote::Approve).finite()) by {
        lemma_len_subset(voters_for(kept.votes, Vote::Approve), kept.votes.dom());
    }
    if approvals(kept.votes) == 0 {
        voters_for(kept.votes, Vote::Approve).lemma_len0_is_empty();
    }
}

/// A pallet that takes up work stands for a well-formed state, and bringing
/// stored records back keeps it so, whatever the records hold.
pub proof fn lemma_loading_keeps_wf(
    state: PalletView,
    config: Config,
    nonce: u64,
    address: u64,
    account: MultisigAccountView,
    multisig: u64,
    id: [u8; 32],
    transaction: TransactionView,
)
    requires
        state.wf(),
    ensures
        PalletView::resumed(config, nonce).wf(),
        state.after_load_multisig(address, account).wf(),
        state.after_load_transaction(multisig, id, transaction).wf(),
{
    let loaded = state.after_load_multisig(address, account);
    assert forall|a: u64| #[trigger]
        loaded.multisigs.contains_key(a) implies loaded.multisigs[a].wf() by {
        if a != address {
            assert(state.multisigs.contains_key(a));
        }
    }
    let kept = state.after_load_transaction(multisig, id, transaction);
    assert forall|key: (u64, [u8; 32])| #[trigger]
        kept.transactions.contains_key(key) implies kept.transactions[key].wf()
        && kept.transactions[key].expires_at == expiry(
        kept.transactions[key].created_at,
        kept.config.default_expiration_blocks,
    ) by {
        if key != (multisig, id) {
            assert(state.transactions.contains_key(key));
        }
    }
}

/// A request that fails changes nothing.
pub proof fn lemma_failure_changes_nothing(
    state: PalletView,
    who: u64,
    members: Set<u64>,
    threshold: Option<u32>,
    now: u64,
    funded: bool,
    multisig: u64,
    id: [u8; 32],
    call: Seq<u8>,
    vote: Vote,
    submission: Submission,
    dispatched: bool,
    sweep: Sweep,
    transferred: bool,
)
    ensures
        state.conclude_creation(who, members, threshold, funded) is Err
            ==> state.after_conclude_creation(who, members, threshold, now, funded) == state,
        state.propose_transaction(who, multisig, call, now) is Err
            ==> state.after_propose_transaction(who, multisig, call, now) == state,
        state.vote(who, multisig, id, vote) is Err ==> state.after_vote(who, multisig, id, vote)
            == state,
        state.conclude_submission(submission, dispatched) is Err
            ==> state.after_conclude_submission(submission, dispatched) == state,
        state.conclude_deletion(sweep, transferred) is Err ==> state.after_conclude_deletion(
            sweep,
            transferred,
        ) == state,
{
}

} // verus!
