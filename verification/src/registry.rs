//! The registry of multisig accounts, by address.

use vstd::prelude::*;
use crate::account::{MultisigAccount, MultisigAccountView};
use crate::table::{
    distinct,
    lemma_table_absent,
    lemma_table_at,
    lemma_table_empty,
    lemma_table_finite,
    lemma_table_push,
    lemma_table_remove,
    lemma_table_update,
    table,
};

verus! {

/// One account with the address it is kept under.
#[derive(Debug)]
struct RegistryEntry {
    address: u64,
    account: MultisigAccount,
}

/// The multisig accounts that exist, each under its address. An address
/// holds one account at most.
#[derive(Debug)]
pub struct Registry {
    entries: Vec<RegistryEntry>,
}

impl View for Registry {
    type V = Map<u64, MultisigAccountView>;

    closed spec fn view(&self) -> Map<u64, MultisigAccountView> {
        table(self.addresses(), self.accounts())
    }
}

impl Registry {
    /// The addresses, in the order in which the entries are kept.
    closed spec fn addresses(&self) -> Seq<u64> {
        self.entries@.map_values(|e: RegistryEntry| e.address)
    }

    /// The accounts, in the order in which the entries are kept.
    closed spec fn accounts(&self) -> Seq<MultisigAccountView> {
        self.entries@.map_values(|e: RegistryEntry| e.account@)
    }

    /// No address is kept twice.
    pub closed spec fn wf(&self) -> bool {
        distinct(self.addresses())
    }

    /// The registry holds finitely many accounts.
    pub proof fn lemma_finite(&self)
        ensures
            self@.dom().finite(),
    {
        lemma_table_finite(self.addresses(), self.accounts());
    }

    /// A registry that holds no account.
    pub fn new() -> (r: Registry)
        ensures
            r.wf(),
            r@ == Map::<u64, MultisigAccountView>::empty(),
    {
        let r = Registry { entries: Vec::new() };
        proof {
            lemma_table_empty::<u64, MultisigAccountView>();
            assert(r.addresses() =~= Seq::<u64>::empty());
            assert(r.accounts() =~= Seq::<MultisigAccountView>::empty());
        }
        r
    }

    /// The position of the entry kept under `address`, if there is one.
    fn position(&self, address: u64) -> (p: Option<usize>)
        requires
            self.wf(),
        ensures
            p is Some <==> self@.contains_key(address),
            p matches Some(i) ==> i < self.entries@.len() && self.entries@[i as int].address
                == address && self.entries@[i as int].account@ == self@[address],
    {
        let mut i: usize = 0;
        while i < self.entries.len()
            invariant
                self.wf(),
                i <= self.entries@.len(),
                forall|j: int| 0 <= j < i ==> self.addresses()[j] != address,
            decreases self.entries@.len() - i,
        {
            if self.entries[i].address == address {
                proof {
                    assert(self.addresses()[i as int] == address);
                    lemma_table_at(self.addresses(), self.accounts(), i as int);
                }
                return Some(i);
            }
            i = i + 1;
        }
        proof {
            lemma_table_absent(self.addresses(), self.accounts(), address);
        }
        None
    }

    /// Whether an account is kept under `address`.
    pub fn contains(&self, address: u64) -> (b: bool)
        requires
            self.wf(),
        ensures
            b == self@.contains_key(address),
    {
        self.position(address).is_some()
    }

    /// The account kept under `address`, if there is one.
    pub fn get(&self, address: u64) -> (r: Option<&MultisigAccount>)
        requires
            self.wf(),
        ensures
            r is Some <==> self@.contains_key(address),
            r matches Some(account) ==> account@ == self@[address],
    {
        match self.position(address) {
            Some(i) => Some(&self.entries[i].account),
            None => None,
        }
    }

    /// Keeps `account` under `address`, in place of any account kept there
    /// before.
    pub fn insert(&mut self, address: u64, account: MultisigAccount)
        requires
            old(self).wf(),
        ensures
            final(self).wf(),
            final(self)@ == old(self)@.insert(address, account@),
    {
        let found = self.position(address);
        let ghost addresses = self.addresses();
        let ghost accounts = self.accounts();
        let ghost view = account@;
        match found {
            Some(i) => {
                self.entries.set(i, RegistryEntry { address, account });
                proof {
                    assert(self.addresses() =~= addresses);
                    assert(self.accounts() =~= accounts.update(i as int, view));
                    lemma_table_update(addresses, accounts, i as int, view);
                }
            },
            None => {
                proof {
                    assert forall|j: int| 0 <= j < addresses.len() implies addresses[j]
                        != address by {
                        if addresses[j] == address {
                            lemma_table_at(addresses, accounts, j);
                        }
                    }
                    lemma_table_push(addresses, accounts, address, view);
                }
                self.entries.push(RegistryEntry { address, account });
                proof {
                    assert(self.addresses() =~= addresses.push(address));
                    assert(self.accounts() =~= accounts.push(view));
                }
            },
        }
    }

    /// Takes out the account kept under `address`, if there is one, and says
    /// whether there was.
    pub fn remove(&mut self, address: u64) -> (removed: bool)
        requires
            old(self).wf(),
        ensures
            final(self).wf(),
            final(self)@ == old(self)@.remove(address),
            removed == old(self)@.contains_key(address),
    {
        let found = self.position(address);
        let ghost addresses = self.addresses();
        let ghost accounts = self.accounts();
        match found {
            Some(i) => {
                let _ = self.entries.remove(i);
                proof {
                    assert(self.addresses() =~= addresses.remove(i as int));
                    assert(self.accounts() =~= accounts.remove(i as int));
                    lemma_table_remove(addresses, accounts, i as int);
                }
                true
            },
            None => {
                proof {
                    assert(self@.remove(address) =~= self@);
                }
                false
            },
        }
    }
}

impl Clone for Registry {
    /// A registry that holds the same accounts under the same addresses.
    fn clone(&self) -> (c: Self)
        ensures
            c@ == self@,
            self.wf() ==> c.wf(),
    {
        let mut entries: Vec<RegistryEntry> = Vec::new();
        let mut i: usize = 0;
        while i < self.entries.len()
            invariant
                i <= self.entries@.len(),
                entries@.len() == i,
                forall|j: int|
                    0 <= j < i ==> (#[trigger] entries@[j]).address == self.entries@[j].address
                        && entries@[j].account@ == self.entries@[j].account@,
            decreases self.entries@.len() - i,
        {
            let entry = &self.entries[i];
            entries.push(RegistryEntry { address: entry.address, account: entry.account.clone() });
            i = i + 1;
        }
        let c = Registry { entries };
        proof {
            assert(c.addresses() =~= self.addresses());
            assert(c.accounts() =~= self.accounts());
        }
        c
    }
}

} // verus!
