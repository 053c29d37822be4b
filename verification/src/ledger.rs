//! The ledger of proposed transactions, by multisig account and transaction
//! identifier.

use vstd::prelude::*;
use crate::bounded::{after_try_insert, try_insert_outcome, votes_try_insert};
use crate::table::{
    distinct,
    lemma_table_absent,
    lemma_table_at,
    lemma_table_empty,
    lemma_table_finite,
    lemma_table_push,
    lemma_table_remove,
    lemma_table_update,
    table,
};
use crate::transaction::{Transaction, TransactionView};
use crate::types::Vote;

verus! {

/// Whether two identifiers hold the same bytes.
pub fn same_id(a: &[u8; 32], b: &[u8; 32]) -> (same: bool)
    ensures
        same == (*a == *b),
{
    let mut i: usize = 0;
    while i < 32
        invariant
            i <= 32,
            forall|j: int| 0 <= j < i ==> a@[j] == b@[j],
        decreases 32 - i,
    {
        if a[i] != b[i] {
            assert(a@[i as int] != b@[i as int]);
            return false;
        }
        i = i + 1;
    }
    assert(*a =~= *b);
    true
}

/// One transaction with the key it is kept under.
#[derive(Debug)]
struct LedgerEntry {
    multisig: u64,
    id: [u8; 32],
    transaction: Transaction,
}

/// The transactions that are kept, each under the multisig account that owns
/// it and its own identifier. A key holds one transaction at most.
#[derive(Debug)]
pub struct Ledger {
    entries: Vec<LedgerEntry>,
}

impl View for Ledger {
    type V = Map<(u64, [u8; 32]), TransactionView>;

    closed spec fn view(&self) -> Map<(u64, [u8; 32]), TransactionView> {
        table(self.keys(), self.transactions())
    }
}

impl Ledger {
    /// The keys, in the order in which the entries are kept.
    closed spec fn keys(&self) -> Seq<(u64, [u8; 32])> {
        self.entries@.map_values(|e: LedgerEntry| (e.multisig, e.id))
    }

    /// The transactions, in the order in which the entries are kept.
    closed spec fn transactions(&self) -> Seq<TransactionView> {
        self.entries@.map_values(|e: LedgerEntry| e.transaction@)
    }

    /// No key is kept twice.
    pub closed spec fn wf(&self) -> bool {
        distinct(self.keys())
    }

    /// The ledger holds finitely many transactions.
    pub proof fn lemma_finite(&self)
        ensures
            self@.dom().finite(),
    {
        lemma_table_finite(self.keys(), self.transactions());
    }

    /// A ledger that holds no transaction.
    pub fn new() -> (l: Ledger)
        ensures
            l.wf(),
            l@ == Map::<(u64, [u8; 32]), TransactionView>::empty(),
    {
        let l = Ledger { entries: Vec::new() };
        proof {
            lemma_table_empty::<(u64, [u8; 32]), TransactionView>();
            assert(l.keys() =~= Seq::<(u64, [u8; 32])>::empty());
            assert(l.transactions() =~= Seq::<TransactionView>::empty());
        }
        l
    }

    /// The position of the entry kept under the key, if there is one.
    fn position(&self, multisig: u64, id: &[u8; 32]) -> (p: Option<usize>)
        requires
            self.wf(),
        ensures
            p is Some <==> self@.contains_key((multisig, *id)),
            p matches Some(i) ==> i < self.entries@.len() && self.keys()[i as int] == (
                multisig,
                *id,
            ) && self.entries@[i as int].transaction@ == self@[(multisig, *id)],
    {
        let mut i: usize = 0;
        while i < self.entries.len()
            invariant
                self.wf(),
                i <= self.entries@.len(),
                forall|j: int| 0 <= j < i ==> self.keys()[j] != (multisig, *id),
            decreases self.entries@.len() - i,
        {
            if self.entries[i].multisig == multisig && same_id(&self.entries[i].id, id) {
                proof {
                    assert(self.keys()[i as int] == (multisig, *id));
                    lemma_table_at(self.keys(), self.transactions(), i as int);
                }
                return Some(i);
            }
            i = i + 1;
        }
        proof {
            lemma_table_absent(self.keys(), self.transactions(), (multisig, *id));
        }
        None
    }

    /// The transaction kept under the key, if there is one.
    pub fn get(&self, multisig: u64, id: &[u8; 32]) -> (r: Option<&Transaction>)
        requires
            self.wf(),
        ensures
            r is Some <==> self@.contains_key((multisig, *id)),
            r matches Some(transaction) ==> transaction@ == self@[(multisig, *id)],
    {
        match self.position(multisig, id) {
            Some(i) => Some(&self.entries[i].transaction),
            None => None,
        }
    }

    /// Keeps `transaction` under the key, in place of any transaction kept
    /// there before.
    pub fn insert(&mut self, multisig: u64, id: [u8; 32], transaction: Transaction)
        requires
            old(self).wf(),
        ensures
            final(self).wf(),
            final(self)@ == old(self)@.insert((multisig, id), transaction@),
    {
        let found = self.position(multisig, &id);
        let ghost keys = self.keys();
        let ghost transactions = self.transactions();
        let ghost key = (multisig, id);
        let ghost view = transaction@;
        match found {
            Some(i) => {
                self.entries.set(i, LedgerEntry { multisig, id, transaction });
                proof {
                    assert(self.keys() =~= keys);
                    assert(self.transactions() =~= transactions.update(i as int, view));
                    lemma_table_update(keys, transactions, i as int, view);
                }
            },
            None => {
                proof {
                    assert forall|j: int| 0 <= j < keys.len() implies keys[j] != key by {
                        if keys[j] == key {
                            lemma_table_at(keys, transactions, j);
                        }
                    }
                    lemma_table_push(keys, transactions, key, view);
                }
                self.entries.push(LedgerEntry { multisig, id, transaction });
                proof {
                    assert(self.keys() =~= keys.push(key));
                    assert(self.transactions() =~= transactions.push(view));
                }
            },
        }
    }

    /// Takes out the transaction kept under the key, if there is one, and
    /// says whether there was.
    pub fn remove(&mut self, multisig: u64, id: &[u8; 32]) -> (removed: bool)
        requires
            old(self).wf(),
        ensures
            final(self).wf(),
            final(self)@ == old(self)@.remove((multisig, *id)),
            removed == old(self)@.contains_key((multisig, *id)),
    {
        let found = self.position(multisig, id);
        let ghost keys = self.keys();
        let ghost transactions = self.transactions();
        match found {
            Some(i) => {
                let _ = self.entries.remove(i);
                proof {
                    assert(self.keys() =~= keys.remove(i as int));
                    assert(self.transactions() =~= transactions.remove(i as int));
                    lemma_table_remove(keys, transactions, i as int);
                }
                true
            },
            None => {
                proof {
                    assert(self@.remove((multisig, *id)) =~= self@);
                }
                false
            },
        }
    }

    /// Writes `who`'s vote into the transaction kept under the key, as far as
    /// the vote map takes it, and hands back the vote map's answer. Nothing
    /// changes where no transaction is kept under the key.
    pub fn cast_vote(&mut self, multisig: u64, id: &[u8; 32], who: u64, vote: Vote) -> (r: Option<
        Result<Option<Vote>, (u64, Vote)>,
    >)
        requires
            old(self).wf(),
        ensures
            final(self).wf(),
            r is Some <==> old(self)@.contains_key((multisig, *id)),
            r is None ==> final(self)@ == old(self)@,
            r matches Some(outcome) ==> outcome == try_insert_outcome(
                old(self)@[(multisig, *id)].votes,
                who,
                vote,
            ) && final(self)@ == old(self)@.insert(
                (multisig, *id),
                TransactionView {
                    votes: after_try_insert(old(self)@[(multisig, *id)].votes, who, vote),
                    ..old(self)@[(multisig, *id)]
                },
            ),
    {
        let found = self.position(multisig, id);
        let ghost keys = self.keys();
        let ghost transactions = self.transactions();
        match found {
            Some(i) => {
                let outcome = votes_try_insert(&mut self.entries[i].transaction.votes, who, vote);
                proof {
                    let view = TransactionView {
                        votes: after_try_insert(transactions[i as int].votes, who, vote),
                        ..transactions[i as int]
                    };
                    assert(self.keys() =~= keys);
                    assert(self.transactions() =~= transactions.update(i as int, view));
                    lemma_table_update(keys, transactions, i as int, view);
                }
                Some(outcome)
            },
            None => None,
        }
    }
}

impl Clone for Ledger {
    /// A ledger that holds the same transactions under the same keys.
    fn clone(&self) -> (c: Self)
        ensures
            c@ == self@,
            self.wf() ==> c.wf(),
    {
        let mut entries: Vec<LedgerEntry> = Vec::new();
        let mut i: usize = 0;
        while i < self.entries.len()
            invariant
                i <= self.entries@.len(),
                entries@.len() == i,
                forall|j: int|
                    0 <= j < i ==> (#[trigger] entries@[j]).multisig == self.entries@[j].multisig
                        && entries@[j].id == self.entries@[j].id && entries@[j].transaction@
                        == self.entries@[j].transaction@,
            decreases self.entries@.len() - i,
        {
            let entry = &self.entries[i];
            entries.push(
                LedgerEntry {
                    multisig: entry.multisig,
                    id: entry.id,
                    transaction: entry.transaction.clone(),
                },
            );
            i = i + 1;
        }
        let c = Ledger { entries };
        proof {
            assert(c.keys() =~= self.keys());
            assert(c.transactions() =~= self.transactions());
        }
        c
    }
}

} // verus!
