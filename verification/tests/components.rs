//! The components on their own: identifiers with their exact values, the
//! tally, the records, the registry, the ledger, and each operation's
//! answers without a host around it.

use multisig::identity::{
    account_id_from_digest, derive_account_id, derive_transaction_id, hash_call,
    transaction_id_from_digest, MULTISIG_TAG, TRANSACTION_TAG,
};
use multisig::ledger::{same_id, Ledger};
use multisig::registry::Registry;
use multisig::tally::do_tally_votes;
use multisig::transaction::vote_of;
use multisig::{
    Config, Deposit, Error, Event, Funding, Hold, HoldReason, MemberSet, MultisigAccount, Pallet,
    Preservation, Submission, Sweep, Transaction, TransactionStatus, Transfer, Vote, VoteMap,
    MAX_MEMBERS,
};
use std::collections::BTreeSet;

const TRANSFER_CALL: [u8; 12] = [1, 0, 3, 0, 0, 0, 0, 0, 0, 0, 161, 15];
const TRANSFER_CALL_HASH: [u8; 32] = [
    123, 246, 99, 140, 22, 235, 234, 231, 9, 219, 79, 171, 252, 160, 114, 52, 176, 96, 252, 122,
    119, 106, 164, 77, 117, 102, 147, 110, 122, 247, 233, 23,
];
const TRANSFER_TRANSACTION_ID: [u8; 32] = [
    225, 118, 2, 15, 80, 78, 13, 76, 22, 185, 169, 53, 244, 20, 163, 65, 163, 23, 9, 18, 196, 115,
    253, 9, 224, 65, 182, 99, 28, 42, 147, 150,
];

fn config() -> Config {
    Config { default_threshold: 2, multisig_deposit: 20, default_expiration_blocks: 100 }
}

fn members(of: &[u64]) -> MemberSet {
    let set: BTreeSet<u64> = of.iter().copied().collect();
    MemberSet::try_from(set).expect("within the bound")
}

fn votes(of: &[(u64, Vote)]) -> VoteMap {
    let mut map = VoteMap::new();
    for (who, vote) in of {
        map.try_insert(*who, *vote).expect("within the bound");
    }
    map
}

/// A pallet with one multisig of members {1,2,3} and threshold 2 at
/// address 50, and one transaction proposed by 1 at block 4.
fn pallet_with_transaction() -> (Pallet, u64, [u8; 32]) {
    let mut pallet = Pallet::new(config());
    pallet
        .conclude_creation_at(50, 1, members(&[1, 2, 3]), Some(2), 4, true)
        .expect("created");
    let id = [7u8; 32];
    pallet
        .store_transaction(id, 1, 50, TRANSFER_CALL.to_vec(), TRANSFER_CALL_HASH, 4)
        .expect("stored");
    (pallet, 50, id)
}

#[test]
fn domain_tags_spell_their_names() {
    assert_eq!(&MULTISIG_TAG, b"pba/multisig");
    assert_eq!(&TRANSACTION_TAG, b"pba/transaction");
    assert_eq!(MAX_MEMBERS, 10);
}

#[test]
fn account_ids_have_their_exact_values() {
    assert_eq!(derive_account_id(0), 3483179600911180000);
    assert_eq!(derive_account_id(1), 5991800498162863851);
    assert_eq!(derive_account_id(2), 2745801321432240082);
    assert_eq!(derive_account_id(u64::MAX), 5194843017730440742);
    assert_eq!(Pallet::generate_multi_account_id(2), 2745801321432240082);
}

#[test]
fn account_ids_do_not_collide_in_a_sample() {
    let mut seen = BTreeSet::new();
    for nonce in 0..1000u64 {
        let id = derive_account_id(nonce);
        assert_eq!(id, derive_account_id(nonce));
        assert!(seen.insert(id), "nonce {} repeats an address", nonce);
    }
    assert_eq!(seen.len(), 1000);
}

#[test]
fn account_id_is_the_first_eight_bytes_little_endian() {
    let mut digest = [0u8; 32];
    assert_eq!(account_id_from_digest(&digest), 0);
    digest[0] = 1;
    assert_eq!(account_id_from_digest(&digest), 1);
    digest[1] = 2;
    assert_eq!(account_id_from_digest(&digest), 0x0201);
    digest[7] = 0x80;
    assert_eq!(account_id_from_digest(&digest), 0x8000_0000_0000_0201);
    // Bytes after the eighth play no part.
    digest[8] = 0xff;
    digest[31] = 0xff;
    assert_eq!(account_id_from_digest(&digest), 0x8000_0000_0000_0201);
    assert_eq!(account_id_from_digest(&[0xff; 32]), u64::MAX);
}

#[test]
fn transaction_id_is_the_digest() {
    let mut digest = [0u8; 32];
    for (i, byte) in digest.iter_mut().enumerate() {
        *byte = i as u8 + 1;
    }
    assert_eq!(transaction_id_from_digest(&digest), digest);
    assert_eq!(transaction_id_from_digest(&[0u8; 32]), [0u8; 32]);
}

#[test]
fn call_hash_has_its_exact_value() {
    assert_eq!(hash_call(&TRANSFER_CALL.to_vec()), TRANSFER_CALL_HASH);
    assert_eq!(
        hash_call(&Vec::new()),
        [
            14, 87, 81, 192, 38, 229, 67, 178, 232, 171, 46, 176, 96, 153, 218, 161, 209, 229,
            223, 71, 119, 143, 119, 135, 250, 171, 69, 205, 241, 47, 227, 168
        ]
    );
    assert_eq!(
        hash_call(&b"abc".to_vec()),
        [
            189, 221, 129, 60, 99, 66, 57, 114, 49, 113, 239, 63, 238, 152, 87, 155, 148, 150, 78,
            59, 177, 203, 62, 66, 114, 98, 200, 192, 104, 213, 35, 25
        ]
    );
}

#[test]
fn transaction_id_has_its_exact_value() {
    assert_eq!(derive_transaction_id(1, 1, &TRANSFER_CALL_HASH), TRANSFER_TRANSACTION_ID);
    assert_eq!(Pallet::generate_transaction_id(1, 1, TRANSFER_CALL_HASH), TRANSFER_TRANSACTION_ID);
    // Each input takes part.
    assert_ne!(derive_transaction_id(2, 1, &TRANSFER_CALL_HASH), TRANSFER_TRANSACTION_ID);
    assert_ne!(derive_transaction_id(1, 2, &TRANSFER_CALL_HASH), TRANSFER_TRANSACTION_ID);
    assert_ne!(derive_transaction_id(1, 1, &[0u8; 32]), TRANSFER_TRANSACTION_ID);
    // The proposer and the height are not interchangeable.
    assert_ne!(
        derive_transaction_id(1, 2, &TRANSFER_CALL_HASH),
        derive_transaction_id(2, 1, &TRANSFER_CALL_HASH)
    );
}

#[test]
fn tally_counts_approvals_and_rejections() {
    let none = votes(&[]);
    assert_eq!(do_tally_votes(TransactionStatus::Pending, &none), Ok((0, 0)));
    let mixed = votes(&[
        (5, Vote::Reject),
        (1, Vote::Approve),
        (9, Vote::Reject),
        (2, Vote::Approve),
        (7, Vote::Approve),
    ]);
    assert_eq!(do_tally_votes(TransactionStatus::Pending, &mixed), Ok((3, 2)));
    let full: Vec<(u64, Vote)> = (0..10).map(|who| (who, Vote::Approve)).collect();
    assert_eq!(do_tally_votes(TransactionStatus::Pending, &votes(&full)), Ok((10, 0)));
    let against: Vec<(u64, Vote)> = (0..10).map(|who| (who * 1000, Vote::Reject)).collect();
    assert_eq!(Pallet::do_tally_votes(TransactionStatus::Pending, &votes(&against)), Ok((0, 10)));
}

#[test]
fn tally_fails_unless_pending() {
    let cast = votes(&[(1, Vote::Approve), (2, Vote::Reject)]);
    for status in [
        TransactionStatus::Complete,
        TransactionStatus::Canceled,
        TransactionStatus::Rejected,
        TransactionStatus::Expired,
    ] {
        assert_eq!(do_tally_votes(status, &cast), Err(Error::TransactionNotPending));
        assert_eq!(do_tally_votes(status, &votes(&[])), Err(Error::TransactionNotPending));
        assert_eq!(Pallet::do_tally_votes(status, &cast), Err(Error::TransactionNotPending));
    }
}

#[test]
fn new_transaction_is_pending_with_the_proposers_approval() {
    let transaction =
        Transaction::new(8, vec![1, 2, 3], [4u8; 32], 1, 100).expect("there is room for a vote");
    assert_eq!(transaction.proposer, 8);
    assert_eq!(transaction.status, TransactionStatus::Pending);
    assert_eq!(transaction.call, vec![1, 2, 3]);
    assert_eq!(transaction.call_hash, [4u8; 32]);
    assert_eq!(transaction.votes.len(), 1);
    assert_eq!(transaction.votes.get(&8), Some(&Vote::Approve));
    assert_eq!(transaction.created_at, 1);
    assert_eq!(transaction.expires_at, 101);
}

#[test]
fn expiry_stops_at_the_last_block_number() {
    let late = Transaction::new(1, Vec::new(), [0u8; 32], u64::MAX - 5, 100).expect("built");
    assert_eq!(late.expires_at, u64::MAX);
    let edge = Transaction::new(1, Vec::new(), [0u8; 32], u64::MAX - 100, 100).expect("built");
    assert_eq!(edge.expires_at, u64::MAX);
    let never = Transaction::new(1, Vec::new(), [0u8; 32], 50, 0).expect("built");
    assert_eq!(never.expires_at, 50);
}

#[test]
fn clones_hold_the_same_values() {
    let account = MultisigAccount {
        creator: 2,
        members: members(&[1, 2, 3]),
        threshold: 2,
        created_at: 9,
    };
    let copy = account.clone();
    assert_eq!(copy.creator, 2);
    assert_eq!(copy.members, account.members);
    assert_eq!(copy.members.len(), 3);
    assert_eq!(copy.threshold, 2);
    assert_eq!(copy.created_at, 9);

    let mut transaction = Transaction::new(8, vec![1, 2, 3], [4u8; 32], 1, 100).expect("built");
    transaction.votes.try_insert(9, Vote::Reject).expect("room");
    let copy = transaction.clone();
    assert_eq!(copy.votes, transaction.votes);
    assert_eq!(copy.votes.len(), 2);
    assert_eq!(copy.call, transaction.call);
    assert_eq!(copy.call_hash, transaction.call_hash);
    assert_eq!(copy.expires_at, 101);
    // The copy stands on its own.
    transaction.votes.try_insert(10, Vote::Reject).expect("room");
    assert_eq!(copy.votes.len(), 2);
}

#[test]
fn pallet_clone_is_a_snapshot() {
    let (mut pallet, multisig, id) = pallet_with_transaction();
    let snapshot = pallet.clone();
    assert_eq!(format!("{:?}", snapshot), format!("{:?}", pallet));
    pallet.vote(2, multisig, id, Vote::Approve).expect("voted");
    let sweep = pallet.delete_multisig(1, multisig).expect("a member may delete");
    pallet.conclude_deletion(&sweep, true).expect("deleted");
    assert!(pallet.multisig(multisig).is_none());
    assert_eq!(pallet.transaction(multisig, &id).expect("kept").votes.len(), 2);
    assert!(snapshot.multisig(multisig).is_some());
    assert_eq!(snapshot.transaction(multisig, &id).expect("kept").votes.len(), 1);
    assert_eq!(snapshot.nonce(), 1);
    assert_eq!(snapshot.config(), config());
}

#[test]
fn same_id_compares_every_byte() {
    let a = [3u8; 32];
    assert!(same_id(&a, &[3u8; 32]));
    for i in 0..32 {
        let mut b = a;
        b[i] = 4;
        assert!(!same_id(&a, &b), "byte {} is looked at", i);
    }
}

#[test]
fn registry_keeps_one_account_per_address() {
    let mut registry = Registry::new();
    assert!(!registry.contains(1));
    assert!(registry.get(1).is_none());
    assert!(!registry.remove(1));
    let account = |creator: u64, threshold: u32| MultisigAccount {
        creator,
        members: members(&[creator, 100]),
        threshold,
        created_at: 0,
    };
    registry.insert(1, account(11, 1));
    registry.insert(2, account(22, 2));
    registry.insert(3, account(33, 1));
    assert_eq!(registry.get(1).expect("kept").creator, 11);
    assert_eq!(registry.get(2).expect("kept").creator, 22);
    assert_eq!(registry.get(3).expect("kept").creator, 33);
    assert!(registry.get(4).is_none());
    // A second account under an address takes the place of the first.
    registry.insert(2, account(99, 2));
    assert_eq!(registry.get(2).expect("kept").creator, 99);
    assert_eq!(registry.get(1).expect("kept").creator, 11);
    assert_eq!(registry.get(3).expect("kept").creator, 33);
    assert!(registry.remove(1));
    assert!(!registry.contains(1));
    assert!(!registry.remove(1));
    assert_eq!(registry.get(2).expect("kept").creator, 99);
    assert_eq!(registry.get(3).expect("kept").creator, 33);
    let copy = registry.clone();
    assert!(registry.remove(3));
    assert!(copy.contains(3));
    assert!(!registry.contains(3));
}

#[test]
fn ledger_keeps_one_transaction_per_key() {
    let mut ledger = Ledger::new();
    let a = [1u8; 32];
    let b = [2u8; 32];
    let transaction =
        |proposer: u64| Transaction::new(proposer, vec![9], [0u8; 32], 1, 10).expect("built");
    assert!(ledger.get(1, &a).is_none());
    assert!(!ledger.remove(1, &a));
    assert_eq!(ledger.cast_vote(1, &a, 5, Vote::Approve), None);
    ledger.insert(1, a, transaction(10));
    ledger.insert(1, b, transaction(20));
    ledger.insert(2, a, transaction(30));
    assert_eq!(ledger.get(1, &a).expect("kept").proposer, 10);
    assert_eq!(ledger.get(1, &b).expect("kept").proposer, 20);
    assert_eq!(ledger.get(2, &a).expect("kept").proposer, 30);
    assert!(ledger.get(2, &b).is_none());
    ledger.insert(1, b, transaction(40));
    assert_eq!(ledger.get(1, &b).expect("kept").proposer, 40);

    assert_eq!(ledger.cast_vote(1, &b, 41, Vote::Reject), Some(Ok(None)));
    assert_eq!(ledger.get(1, &b).expect("kept").votes.get(&41), Some(&Vote::Reject));
    assert_eq!(ledger.get(1, &b).expect("kept").votes.len(), 2);
    assert_eq!(ledger.get(1, &a).expect("kept").votes.len(), 1);
    // A key that is present is written again, and the old vote comes back.
    assert_eq!(ledger.cast_vote(1, &b, 41, Vote::Approve), Some(Ok(Some(Vote::Reject))));
    assert_eq!(ledger.get(1, &b).expect("kept").votes.get(&41), Some(&Vote::Approve));
    for who in 100..108u64 {
        assert_eq!(ledger.cast_vote(1, &b, who, Vote::Approve), Some(Ok(None)));
    }
    assert_eq!(ledger.get(1, &b).expect("kept").votes.len(), 10);
    assert_eq!(ledger.cast_vote(1, &b, 500, Vote::Reject), Some(Err((500, Vote::Reject))));
    assert_eq!(ledger.get(1, &b).expect("kept").votes.len(), 10);
    assert_eq!(ledger.get(1, &b).expect("kept").votes.get(&500), None);

    let copy = ledger.clone();
    assert!(ledger.remove(1, &a));
    assert!(ledger.get(1, &a).is_none());
    assert!(!ledger.remove(1, &a));
    assert_eq!(ledger.get(2, &a).expect("kept").proposer, 30);
    assert_eq!(copy.get(1, &a).expect("kept").proposer, 10);
    assert_eq!(copy.get(1, &b).expect("kept").votes.len(), 10);
}

#[test]
fn a_new_pallet_is_empty() {
    let pallet = Pallet::new(config());
    assert_eq!(pallet.nonce(), 0);
    assert_eq!(pallet.config(), config());
    assert!(pallet.multisig(derive_account_id(0)).is_none());
    assert!(pallet.transaction(0, &[0u8; 32]).is_none());
}

#[test]
fn creation_asks_for_the_deposit_and_one_more() {
    let mut pallet = Pallet::new(config());
    let address = derive_account_id(0);
    let before = format!("{:?}", pallet);
    let answer = pallet.create_multisig(1, &members(&[1, 2, 3]), Some(3), 20);
    assert_eq!(
        answer,
        Ok(Deposit {
            transfer: Transfer {
                from: 1,
                to: address,
                amount: 21,
                preservation: Preservation::Expendable,
            },
            hold: Hold { reason: HoldReason::MultisigCreationDeposit, account: address, amount: 20 },
        })
    );
    // The request alone changes nothing.
    assert_eq!(format!("{:?}", pallet), before);
    assert!(pallet.multisig(address).is_none());
    assert_eq!(pallet.nonce(), 0);
    assert_eq!(
        pallet.conclude_creation(1, members(&[1, 2, 3]), Some(3), 12, true),
        Ok(Event::NewMultisig { creator: 1, multisig: address })
    );
    let account = pallet.multisig(address).expect("registered");
    assert_eq!(account.creator, 1);
    assert_eq!(account.members, members(&[1, 2, 3]));
    assert_eq!(account.threshold, 3);
    assert_eq!(account.created_at, 12);
    assert_eq!(pallet.nonce(), 1);
}

#[test]
fn a_creation_without_its_deposit_changes_nothing() {
    let mut pallet = Pallet::new(config());
    let address = derive_account_id(0);
    assert!(pallet.create_multisig(1, &members(&[1, 2, 3]), Some(2), 1_000).is_ok());
    let before = format!("{:?}", pallet);
    assert_eq!(
        pallet.conclude_creation(1, members(&[1, 2, 3]), Some(2), 5, false),
        Err(Error::TransferFailed)
    );
    assert_eq!(format!("{:?}", pallet), before);
    assert_eq!(pallet.nonce(), 0);
    assert!(pallet.multisig(address).is_none());
    // The request is looked at again before the funds are.
    assert_eq!(
        pallet.conclude_creation(9, members(&[1, 2, 3]), Some(2), 5, false),
        Err(Error::ProposerMustBeMember)
    );
    assert_eq!(
        pallet.conclude_creation(9, members(&[1, 2, 3]), Some(2), 5, true),
        Err(Error::ProposerMustBeMember)
    );
    assert_eq!(
        pallet.conclude_creation(1, members(&[1, 2, 3]), Some(4), 5, true),
        Err(Error::ThresholdTooHigh)
    );
    assert_eq!(
        pallet.conclude_creation(1, members(&[1, 2, 3]), Some(0), 5, true),
        Err(Error::ThresholdTooHigh)
    );
    assert_eq!(format!("{:?}", pallet), before);
    // The same creation goes through once the deposit is in place.
    assert!(pallet.conclude_creation(1, members(&[1, 2, 3]), Some(2), 5, true).is_ok());
    assert_eq!(pallet.nonce(), 1);
    assert!(pallet.multisig(address).is_some());
}

#[test]
fn the_largest_deposit_is_not_exceeded() {
    let pallet = Pallet::new(Config {
        default_threshold: 1,
        multisig_deposit: u128::MAX,
        default_expiration_blocks: 0,
    });
    assert_eq!(
        pallet.create_multisig(1, &members(&[1]), None, u128::MAX - 1),
        Err(Error::NotEnoughFunds)
    );
    let deposit = pallet.create_multisig(1, &members(&[1]), None, u128::MAX).expect("answered");
    assert_eq!(deposit.transfer.amount, u128::MAX);
    assert_eq!(deposit.hold.amount, u128::MAX);
}

#[test]
fn the_default_threshold_stands_in() {
    let mut pallet = Pallet::new(config());
    assert!(pallet.create_multisig_at(5, 1, &members(&[1, 2]), None, 100).is_ok());
    pallet.conclude_creation_at(5, 1, members(&[1, 2]), None, 0, true).expect("created");
    assert_eq!(pallet.multisig(5).expect("registered").threshold, 2);
    assert_eq!(
        pallet.create_multisig_at(6, 1, &members(&[1]), None, 100),
        Err(Error::ThresholdTooHigh)
    );
    assert_eq!(
        pallet.conclude_creation_at(6, 1, members(&[1]), None, 0, true),
        Err(Error::ThresholdTooHigh)
    );
    assert!(pallet.multisig(6).is_none());
    assert_eq!(pallet.nonce(), 1);
    // A default of zero asks for no vote and is turned down like any zero.
    let mut lax = Pallet::new(Config {
        default_threshold: 0,
        multisig_deposit: 20,
        default_expiration_blocks: 100,
    });
    assert_eq!(lax.create_multisig(1, &members(&[1, 2]), None, 100), Err(Error::ThresholdTooHigh));
    assert_eq!(
        lax.conclude_creation(1, members(&[1, 2]), None, 0, true),
        Err(Error::ThresholdTooHigh)
    );
    assert!(lax.create_multisig(1, &members(&[1, 2]), Some(1), 100).is_ok());
}

#[test]
fn creation_errors_in_order() {
    let mut pallet = Pallet::new(config());
    // Not a member, threshold too high and no funds: membership is looked at first.
    assert_eq!(
        pallet.create_multisig(9, &members(&[1, 2, 3]), Some(4), 0),
        Err(Error::ProposerMustBeMember)
    );
    assert_eq!(
        pallet.create_multisig(9, &members(&[]), Some(0), 1_000),
        Err(Error::ProposerMustBeMember)
    );
    // A member, threshold too high and no funds: the threshold comes next.
    assert_eq!(
        pallet.create_multisig(1, &members(&[1, 2, 3]), Some(4), 0),
        Err(Error::ThresholdTooHigh)
    );
    assert_eq!(
        pallet.create_multisig(1, &members(&[1, 2, 3]), Some(u32::MAX), 1_000),
        Err(Error::ThresholdTooHigh)
    );
    assert_eq!(
        pallet.create_multisig(1, &members(&[1, 2, 3]), Some(3), 19),
        Err(Error::NotEnoughFunds)
    );
    assert_eq!(pallet.nonce(), 0);
    assert!(pallet.multisig(derive_account_id(0)).is_none());
    assert!(pallet.create_multisig(1, &members(&[1, 2, 3]), Some(3), 20).is_ok());
    assert!(pallet.conclude_creation(1, members(&[1, 2, 3]), Some(3), 0, true).is_ok());
}

#[test]
fn a_threshold_of_zero_is_turned_down() {
    let mut pallet = Pallet::new(config());
    let before = format!("{:?}", pallet);
    for spendable in [0, 20, 1_000] {
        assert_eq!(
            pallet.create_multisig(1, &members(&[1, 2, 3]), Some(0), spendable),
            Err(Error::ThresholdTooHigh)
        );
    }
    assert_eq!(
        pallet.conclude_creation(1, members(&[1, 2, 3]), Some(0), 0, true),
        Err(Error::ThresholdTooHigh)
    );
    assert_eq!(format!("{:?}", pallet), before);
    // One vote is the least a multisig can ask for, every member the most.
    assert!(pallet.create_multisig(1, &members(&[1, 2, 3]), Some(1), 20).is_ok());
    assert!(pallet.create_multisig(1, &members(&[1, 2, 3]), Some(3), 20).is_ok());
    assert!(pallet.conclude_creation(1, members(&[1, 2, 3]), Some(1), 0, true).is_ok());
    assert_eq!(pallet.multisig(derive_account_id(0)).expect("registered").threshold, 1);
}

#[test]
fn a_multisig_at_a_taken_address_takes_its_place() {
    let mut pallet = Pallet::new(config());
    pallet.conclude_creation_at(5, 1, members(&[1, 2]), Some(1), 3, true).expect("created");
    pallet.conclude_creation_at(5, 7, members(&[7, 8, 9]), Some(3), 4, true).expect("created");
    let account = pallet.multisig(5).expect("registered");
    assert_eq!(account.creator, 7);
    assert_eq!(account.threshold, 3);
    assert_eq!(account.created_at, 4);
    assert_eq!(pallet.nonce(), 2);
}

#[test]
fn funding_with_zero_always_fails() {
    let (pallet, multisig, _) = pallet_with_transaction();
    for spendable in [0, 1, 1_000, u128::MAX] {
        for who in [1, 9] {
            assert_eq!(pallet.fund_multisig(who, multisig, 0, spendable), Err(Error::ZeroAmount));
            assert_eq!(pallet.fund_multisig(who, multisig + 1, 0, spendable), Err(Error::ZeroAmount));
        }
    }
}

#[test]
fn funding_errors_in_order() {
    let (pallet, multisig, _) = pallet_with_transaction();
    // An unknown multisig and too little to spend: the funds are looked at first.
    assert_eq!(pallet.fund_multisig(9, multisig + 1, 100, 99), Err(Error::NotEnoughFunds));
    assert_eq!(pallet.fund_multisig(9, multisig + 1, 100, 100), Err(Error::MultisigDoesNotExist));
    assert_eq!(pallet.fund_multisig(9, multisig, 100, 99), Err(Error::NotEnoughFunds));
    assert_eq!(
        pallet.fund_multisig(9, multisig, 100, 100),
        Ok(Funding {
            transfer: Transfer {
                from: 9,
                to: multisig,
                amount: 100,
                preservation: Preservation::Preserve,
            },
            event: Event::MultisigFunded { from: 9, to: multisig, amount: 100 },
        })
    );
}

#[test]
fn building_twice_starts_the_transaction_over() {
    let (mut pallet, multisig, _) = pallet_with_transaction();
    let event = pallet.build_transaction(1, multisig, vec![1], TRANSFER_CALL_HASH, 1);
    assert_eq!(
        event,
        Ok(Event::TransactionCreated {
            proposer: 1,
            transaction: TRANSFER_TRANSACTION_ID,
            multisig,
            status: TransactionStatus::Pending,
            call_hash: TRANSFER_CALL_HASH,
        })
    );
    pallet.vote(2, multisig, TRANSFER_TRANSACTION_ID, Vote::Reject).expect("voted");
    assert_eq!(pallet.transaction(multisig, &TRANSFER_TRANSACTION_ID).expect("kept").votes.len(), 2);
    pallet.build_transaction(1, multisig, vec![2], TRANSFER_CALL_HASH, 1).expect("built");
    let kept = pallet.transaction(multisig, &TRANSFER_TRANSACTION_ID).expect("kept");
    assert_eq!(kept.votes.len(), 1);
    assert_eq!(kept.call, vec![2]);
    // Building looks at neither the multisig nor the proposer.
    pallet.build_transaction(77, 12345, vec![3], [1u8; 32], 1).expect("built");
    let id = derive_transaction_id(77, 1, &[1u8; 32]);
    assert_eq!(pallet.transaction(12345, &id).expect("kept").proposer, 77);
}

#[test]
fn proposing_hashes_the_call() {
    let (mut pallet, multisig, _) = pallet_with_transaction();
    let event = pallet.propose_transaction(1, multisig, TRANSFER_CALL.to_vec(), 1);
    assert_eq!(
        event,
        Ok(Event::TransactionCreated {
            proposer: 1,
            transaction: TRANSFER_TRANSACTION_ID,
            multisig,
            status: TransactionStatus::Pending,
            call_hash: TRANSFER_CALL_HASH,
        })
    );
    let kept = pallet.transaction(multisig, &TRANSFER_TRANSACTION_ID).expect("kept");
    assert_eq!(kept.call, TRANSFER_CALL.to_vec());
    assert_eq!(kept.call_hash, TRANSFER_CALL_HASH);
    assert_eq!(kept.created_at, 1);
    assert_eq!(kept.expires_at, 101);
    // With the hash given, the call is not looked at.
    let given = pallet.propose_hashed(2, multisig, vec![1, 2, 3], [6u8; 32], 9).expect("proposed");
    let id = derive_transaction_id(2, 9, &[6u8; 32]);
    assert_eq!(
        given,
        Event::TransactionCreated {
            proposer: 2,
            transaction: id,
            multisig,
            status: TransactionStatus::Pending,
            call_hash: [6u8; 32],
        }
    );
    assert_eq!(
        pallet.propose_hashed(4, multisig, vec![1], [6u8; 32], 9),
        Err(Error::ProposerMustBeMember)
    );
    assert_eq!(
        pallet.propose_hashed(1, multisig + 1, vec![1], [6u8; 32], 9),
        Err(Error::MultisigDoesNotExist)
    );
}

#[test]
fn a_second_vote_is_turned_down() {
    let (mut pallet, multisig, id) = pallet_with_transaction();
    assert_eq!(
        pallet.vote(2, multisig, id, Vote::Reject),
        Ok(Event::TransactionVoted {
            voter: 2,
            transaction: id,
            multisig,
            vote: Vote::Reject,
            call_hash: TRANSFER_CALL_HASH,
        })
    );
    let before = format!("{:?}", pallet);
    assert_eq!(pallet.vote(2, multisig, id, Vote::Approve), Err(Error::AlreadyVoted));
    assert_eq!(pallet.vote(2, multisig, id, Vote::Reject), Err(Error::AlreadyVoted));
    assert_eq!(pallet.vote(1, multisig, id, Vote::Reject), Err(Error::AlreadyVoted));
    assert_eq!(format!("{:?}", pallet), before);
    let kept = pallet.transaction(multisig, &id).expect("kept");
    assert_eq!(kept.votes.len(), 2);
    assert_eq!(kept.votes.get(&1), Some(&Vote::Approve));
    assert_eq!(kept.votes.get(&2), Some(&Vote::Reject));
}

#[test]
fn submission_tallies_without_changing_anything() {
    let (mut pallet, multisig, id) = pallet_with_transaction();
    let before = format!("{:?}", pallet);
    let waiting = pallet
        .submit_hashed(3, multisig, id, &TRANSFER_CALL_HASH, TRANSFER_CALL_HASH)
        .expect("looked at");
    assert_eq!(
        waiting,
        Submission {
            submitter: 3,
            multisig,
            transaction: id,
            call_hash: TRANSFER_CALL_HASH,
            proposer: 1,
            approvals: 1,
            rejections: 0,
            quorum: false,
        }
    );
    assert_eq!(format!("{:?}", pallet), before);
    assert_eq!(pallet.conclude_submission(&waiting, true), Ok(None));
    assert_eq!(pallet.conclude_submission(&waiting, false), Ok(None));
    assert_eq!(format!("{:?}", pallet), before);

    pallet.vote(2, multisig, id, Vote::Reject).expect("voted");
    pallet.vote(3, multisig, id, Vote::Reject).expect("voted");
    let ready = pallet
        .submit_transaction(2, multisig, id, &TRANSFER_CALL.to_vec(), TRANSFER_CALL_HASH)
        .expect("looked at");
    assert_eq!(ready.approvals, 1);
    assert_eq!(ready.rejections, 2);
    assert!(ready.quorum);
    assert_eq!(ready.proposer, 1);
    let before = format!("{:?}", pallet);
    assert_eq!(pallet.conclude_submission(&ready, false), Err(Error::TransactionFailed));
    assert_eq!(format!("{:?}", pallet), before);
    assert_eq!(
        pallet.conclude_submission(&ready, true),
        Ok(Some(Event::TransactionExecuted {
            submitter: 2,
            transaction: id,
            multisig,
            approvals: 1,
            rejections: 2,
            status: TransactionStatus::Complete,
            call_hash: TRANSFER_CALL_HASH,
        }))
    );
    assert!(pallet.transaction(multisig, &id).is_none());
    assert_eq!(
        pallet.submit_hashed(2, multisig, id, &TRANSFER_CALL_HASH, TRANSFER_CALL_HASH),
        Err(Error::TransactionDoesNotExist)
    );
    assert_eq!(pallet.vote(2, multisig, id, Vote::Approve), Err(Error::TransactionDoesNotExist));
}

#[test]
fn both_counts_at_the_threshold_give_one_execution() {
    let mut pallet = Pallet::new(config());
    pallet.conclude_creation_at(5, 1, members(&[1, 2]), Some(1), 0, true).expect("created");
    pallet.store_transaction([1u8; 32], 1, 5, vec![0], [2u8; 32], 0).expect("stored");
    pallet.vote(2, 5, [1u8; 32], Vote::Reject).expect("voted");
    let submission =
        pallet.submit_hashed(2, 5, [1u8; 32], &[2u8; 32], [2u8; 32]).expect("looked at");
    assert!(submission.quorum);
    assert_eq!((submission.approvals, submission.rejections), (1, 1));
    assert!(pallet.conclude_submission(&submission, true).expect("concluded").is_some());
    assert!(pallet.transaction(5, &[1u8; 32]).is_none());
}

#[test]
fn a_substituted_call_is_turned_down() {
    let (mut pallet, multisig, id) = pallet_with_transaction();
    pallet.vote(2, multisig, id, Vote::Approve).expect("voted");
    let before = format!("{:?}", pallet);
    // The transaction is at quorum for the call that was proposed.
    let ready = pallet
        .submit_transaction(3, multisig, id, &TRANSFER_CALL.to_vec(), TRANSFER_CALL_HASH)
        .expect("looked at");
    assert!(ready.quorum);
    assert_eq!(ready.call_hash, TRANSFER_CALL_HASH);
    // Another call, given with its own true hash, is not the one proposed.
    let other = b"abc".to_vec();
    let other_hash = hash_call(&other);
    assert_ne!(other_hash, TRANSFER_CALL_HASH);
    assert_eq!(
        pallet.submit_transaction(3, multisig, id, &other, other_hash),
        Err(Error::MismatchingCallHash)
    );
    assert_eq!(
        pallet.submit_hashed(3, multisig, id, &other_hash, other_hash),
        Err(Error::MismatchingCallHash)
    );
    // Nor does it pass under the hash that is kept.
    assert_eq!(
        pallet.submit_transaction(3, multisig, id, &other, TRANSFER_CALL_HASH),
        Err(Error::MismatchingCallHash)
    );
    assert_eq!(format!("{:?}", pallet), before);
    assert!(pallet.transaction(multisig, &id).is_some());
}

#[test]
fn submission_errors_in_order() {
    let (pallet, multisig, id) = pallet_with_transaction();
    let right = TRANSFER_CALL_HASH;
    let wrong = [0u8; 32];
    assert_eq!(
        pallet.submit_hashed(9, multisig + 1, [0u8; 32], &wrong, right),
        Err(Error::MultisigDoesNotExist)
    );
    assert_eq!(pallet.submit_hashed(9, multisig, [0u8; 32], &wrong, right), Err(Error::NotAMember));
    assert_eq!(
        pallet.submit_hashed(1, multisig, [0u8; 32], &wrong, right),
        Err(Error::MismatchingCallHash)
    );
    assert_eq!(
        pallet.submit_hashed(1, multisig, [0u8; 32], &right, right),
        Err(Error::TransactionDoesNotExist)
    );
    assert!(pallet.submit_hashed(1, multisig, id, &right, right).is_ok());
    // A call that matches its own hash still has to match the hash kept.
    assert_eq!(
        pallet.submit_hashed(1, multisig, id, &wrong, wrong),
        Err(Error::MismatchingCallHash)
    );
    assert_eq!(
        pallet.submit_transaction(1, multisig, id, &vec![1, 2, 3], right),
        Err(Error::MismatchingCallHash)
    );
}

#[test]
fn deletion_comes_in_two_steps() {
    let (mut pallet, multisig, id) = pallet_with_transaction();
    assert_eq!(pallet.delete_multisig(1, multisig + 1), Err(Error::MultisigDoesNotExist));
    assert_eq!(pallet.delete_multisig(9, multisig), Err(Error::NotAMember));
    let before = format!("{:?}", pallet);
    let sweep = pallet.delete_multisig(3, multisig).expect("a member may delete");
    assert_eq!(
        sweep,
        Sweep {
            caller: 3,
            multisig,
            creator: 1,
            release: HoldReason::MultisigCreationDeposit,
        }
    );
    assert_eq!(format!("{:?}", pallet), before);
    assert_eq!(pallet.conclude_deletion(&sweep, false), Err(Error::TransferFailed));
    assert_eq!(format!("{:?}", pallet), before);
    assert_eq!(
        pallet.conclude_deletion(&sweep, true),
        Ok(Event::MultisigDeleted { from: 3, multisig })
    );
    assert!(pallet.multisig(multisig).is_none());
    // Its transactions stay in the ledger, out of anyone's reach.
    assert!(pallet.transaction(multisig, &id).is_some());
    assert_eq!(pallet.vote(2, multisig, id, Vote::Approve), Err(Error::MultisigDoesNotExist));
    assert_eq!(pallet.delete_multisig(3, multisig), Err(Error::MultisigDoesNotExist));
    assert_eq!(pallet.delete_multisig(1, multisig), Err(Error::MultisigDoesNotExist));
}

#[test]
fn vote_of_finds_the_vote_on_record() {
    let cast = votes(&[(4, Vote::Reject), (1, Vote::Approve), (9, Vote::Reject)]);
    assert_eq!(vote_of(&cast, 1), Some(Vote::Approve));
    assert_eq!(vote_of(&cast, 4), Some(Vote::Reject));
    assert_eq!(vote_of(&cast, 9), Some(Vote::Reject));
    assert_eq!(vote_of(&cast, 0), None);
    assert_eq!(vote_of(&cast, 5), None);
    assert_eq!(vote_of(&votes(&[]), 1), None);
}

#[test]
fn well_formed_accounts() {
    let account = |creator: u64, of: &[u64], threshold: u32| MultisigAccount {
        creator,
        members: members(of),
        threshold,
        created_at: 0,
    };
    assert!(account(1, &[1, 2, 3], 3).is_well_formed());
    assert!(account(1, &[1, 2, 3], 1).is_well_formed());
    assert!(account(3, &[1, 2, 3], 1).is_well_formed());
    assert!(account(1, &[1], 1).is_well_formed());
    // The threshold asks for no vote.
    assert!(!account(1, &[1, 2, 3], 0).is_well_formed());
    // The threshold cannot be met.
    assert!(!account(1, &[1, 2, 3], 4).is_well_formed());
    // The creator is not a member.
    assert!(!account(4, &[1, 2, 3], 1).is_well_formed());
    assert!(!account(1, &[], 0).is_well_formed());
}

#[test]
fn well_formed_transactions() {
    let mut transaction = Transaction::new(8, vec![1], [0u8; 32], 10, 100).expect("built");
    assert!(transaction.is_well_formed());
    assert!(transaction.expires_after(100));
    assert!(!transaction.expires_after(99));
    assert!(!transaction.expires_after(101));
    transaction.votes.try_insert(9, Vote::Reject).expect("room");
    assert!(transaction.is_well_formed());
    // The proposer's vote is no approval.
    transaction.votes.try_insert(8, Vote::Reject).expect("present");
    assert!(!transaction.is_well_formed());
    // The proposer has no vote.
    transaction.votes = votes(&[(9, Vote::Approve)]);
    assert!(!transaction.is_well_formed());
    transaction.votes = votes(&[]);
    assert!(!transaction.is_well_formed());
    let late = Transaction::new(8, vec![1], [0u8; 32], u64::MAX, 100).expect("built");
    assert!(late.expires_after(100));
    assert!(late.expires_after(0));
}

#[test]
fn a_stored_state_is_taken_up_again() {
    let (pallet, multisig, id) = pallet_with_transaction();
    let account = pallet.multisig(multisig).expect("registered").clone();
    let transaction = pallet.transaction(multisig, &id).expect("kept").clone();

    let mut resumed = Pallet::resume(config(), pallet.nonce());
    assert_eq!(resumed.nonce(), 1);
    assert_eq!(resumed.config(), config());
    assert!(resumed.multisig(multisig).is_none());
    assert!(resumed.transaction(multisig, &id).is_none());
    assert!(resumed.load_multisig(multisig, account));
    assert!(resumed.load_transaction(multisig, id, transaction));
    assert_eq!(format!("{:?}", resumed), format!("{:?}", pallet));
    // Work goes on where it stopped.
    assert!(resumed.vote(2, multisig, id, Vote::Approve).is_ok());
    assert_eq!(resumed.vote(2, multisig, id, Vote::Approve), Err(Error::AlreadyVoted));
    let next = resumed.create_multisig(1, &members(&[1]), Some(1), 20).expect("answered");
    assert_eq!(next.transfer.to, derive_account_id(1));
    assert_eq!(
        resumed.conclude_creation(1, members(&[1]), Some(1), 0, true),
        Ok(Event::NewMultisig { creator: 1, multisig: derive_account_id(1) })
    );
    assert_eq!(resumed.nonce(), 2);
}

#[test]
fn ill_formed_records_are_left_out() {
    let mut pallet = Pallet::resume(config(), 3);
    let before = format!("{:?}", pallet);
    let outsider = MultisigAccount {
        creator: 9,
        members: members(&[1, 2]),
        threshold: 1,
        created_at: 0,
    };
    assert!(!pallet.load_multisig(5, outsider));
    let unreachable = MultisigAccount {
        creator: 1,
        members: members(&[1, 2]),
        threshold: 3,
        created_at: 0,
    };
    assert!(!pallet.load_multisig(5, unreachable));
    let mut turned = Transaction::new(1, vec![], [0u8; 32], 0, 100).expect("built");
    turned.votes.try_insert(1, Vote::Reject).expect("present");
    assert!(!pallet.load_transaction(5, [1u8; 32], turned));
    // The configuration says 100 blocks.
    let short = Transaction::new(1, vec![], [0u8; 32], 0, 50).expect("built");
    assert!(!pallet.load_transaction(5, [1u8; 32], short));
    assert_eq!(format!("{:?}", pallet), before);
    // A transaction in a final status is taken as it is, and stays untouched.
    let mut done = Transaction::new(1, vec![], [0u8; 32], 0, 100).expect("built");
    done.status = TransactionStatus::Complete;
    assert!(pallet.load_transaction(5, [1u8; 32], done));
    let fine = MultisigAccount { creator: 1, members: members(&[1, 2]), threshold: 1, created_at: 0 };
    assert!(pallet.load_multisig(5, fine));
    assert_eq!(pallet.vote(2, 5, [1u8; 32], Vote::Approve), Err(Error::TransactionNotPending));
    assert_eq!(
        pallet.submit_hashed(2, 5, [1u8; 32], &[0u8; 32], [0u8; 32]),
        Err(Error::TransactionNotPending)
    );
    // A cancellation is reported whatever the status.
    assert!(pallet.cancel_transaction(2, 5, [1u8; 32]).is_ok());
}

#[test]
fn a_sweep_nobody_may_ask_for_is_turned_down() {
    let (mut pallet, multisig, _) = pallet_with_transaction();
    let before = format!("{:?}", pallet);
    let outsider = Sweep {
        caller: 9,
        multisig,
        creator: 9,
        release: HoldReason::MultisigCreationDeposit,
    };
    assert_eq!(pallet.conclude_deletion(&outsider, true), Err(Error::NotAMember));
    assert_eq!(pallet.conclude_deletion(&outsider, false), Err(Error::NotAMember));
    let nowhere = Sweep {
        caller: 1,
        multisig: multisig + 1,
        creator: 1,
        release: HoldReason::MultisigCreationDeposit,
    };
    assert_eq!(pallet.conclude_deletion(&nowhere, true), Err(Error::MultisigDoesNotExist));
    assert_eq!(format!("{:?}", pallet), before);
    assert!(pallet.multisig(multisig).is_some());
    // Concluding the same deletion twice finds nothing the second time.
    let sweep = pallet.delete_multisig(2, multisig).expect("a member may delete");
    assert!(pallet.conclude_deletion(&sweep, true).is_ok());
    assert_eq!(pallet.conclude_deletion(&sweep, true), Err(Error::MultisigDoesNotExist));
}
