//! The record of a multisig account.

use vstd::prelude::*;
use crate::bounded::{
    member_set,
    members_clone,
    members_contains,
    members_len,
    MemberSet,
    MAX_MEMBERS,
};

verus! {

/// A multisig account as the registry keeps it. Its address is the key under
/// which it is kept.
#[derive(Debug)]
pub struct MultisigAccount {
    /// The creator of the multisig.
    pub creator: u64,
    /// The members of the multisig.
    pub members: MemberSet,
    /// The number of votes of one kind that let a transaction go ahead.
    pub threshold: u32,
    /// The block number at which the multisig was created.
    pub created_at: u64,
}

/// What a multisig account holds, as mathematics.
pub struct MultisigAccountView {
    pub creator: u64,
    pub members: Set<u64>,
    pub threshold: u32,
    pub created_at: u64,
}

impl MultisigAccountView {
    /// The creator is a member, the threshold asks for one vote at least and
    /// for no more than there are members, and the members are within the
    /// bound.
    pub open spec fn wf(self) -> bool {
        &&& self.members.finite()
        &&& self.members.len() <= MAX_MEMBERS
        &&& self.members.contains(self.creator)
        &&& 1 <= self.threshold <= self.members.len()
    }
}

impl View for MultisigAccount {
    type V = MultisigAccountView;

    open spec fn view(&self) -> MultisigAccountView {
        MultisigAccountView {
            creator: self.creator,
            members: member_set(self.members),
            threshold: self.threshold,
            created_at: self.created_at,
        }
    }
}

impl MultisigAccount {
    /// Whether the creator is a member and the threshold asks for one vote
    /// at least and for no more than there are members.
    pub fn is_well_formed(&self) -> (b: bool)
        ensures
            b == self@.wf(),
    {
        let count = members_len(&self.members);
        members_contains(&self.members, self.creator) && 1 <= self.threshold
            && self.threshold as usize <= count
    }
}

impl Clone for MultisigAccount {
    /// A record that holds the same values.
    fn clone(&self) -> (c: Self)
        ensures
            c@ == self@,
    {
        MultisigAccount {
            creator: self.creator,
            members: members_clone(&self.members),
            threshold: self.threshold,
            created_at: self.created_at,
        }
    }
}

} // verus!
