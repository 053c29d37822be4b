//! The bounded ordered collections that hold members and votes.
//!
//! Both come from `bounded-collections` by way of `sp_runtime`. Verus sees
//! nothing inside them: what they hold is named by [`member_set`] and
//! [`vote_map`], and each method the library calls is reached through one
//! function here whose contract is taken on trust from the collection's
//! source.
//!
//! The bound of such a collection is part of its type, so it is fixed once
//! for the library, as [`MAX_MEMBERS`].

use vstd::prelude::*;
use sp_core::ConstU32;
use sp_runtime::{BoundedBTreeMap, BoundedBTreeSet};
use crate::types::Vote;

verus! {

/// `BoundedBTreeSet` of bounded-collections, as `sp_runtime` hands it on: an
/// ordered set that never holds more items than its bound `S` says. Nothing
/// inside it is visible here.
#[verifier::external_type_specification]
#[verifier::external_body]
#[verifier::reject_recursive_types(T)]
#[verifier::reject_recursive_types(S)]
pub struct ExBoundedBTreeSet<T, S>(BoundedBTreeSet<T, S>);

/// `BoundedBTreeMap` of bounded-collections, as `sp_runtime` hands it on: an
/// ordered map that never holds more entries than its bound `S` says.
/// Nothing inside it is visible here.
#[verifier::external_type_specification]
#[verifier::external_body]
#[verifier::reject_recursive_types(K)]
#[verifier::reject_recursive_types(V)]
#[verifier::reject_recursive_types(S)]
pub struct ExBoundedBTreeMap<K, V, S>(BoundedBTreeMap<K, V, S>);

/// `ConstU32` of bounded-collections, as `sp_core` hands it on: a bound
/// written as a type.
#[verifier::external_type_specification]
#[verifier::external_body]
pub struct ExConstU32<const T: u32>(ConstU32<T>);

/// The most members a multisig can have, and the most votes a transaction
/// can collect.
pub const MAX_MEMBERS: u32 = 10;

/// The type-level form of [`MAX_MEMBERS`].
pub type MaxMembers = ConstU32<10>;

/// The members of a multisig.
pub type MemberSet = BoundedBTreeSet<u64, ConstU32<10>>;

/// The votes cast on a transaction, by voter.
pub type VoteMap = BoundedBTreeMap<u64, Vote, ConstU32<10>>;

/// The accounts that a member set holds.
pub uninterp spec fn member_set(s: BoundedBTreeSet<u64, ConstU32<10>>) -> Set<u64>;

/// The votes that a vote map holds, by voter.
pub uninterp spec fn vote_map(m: BoundedBTreeMap<u64, Vote, ConstU32<10>>) -> Map<u64, Vote>;

/// What `try_insert` leaves in a map that held `m`: the entry is written where
/// the key is already present or there is room, and nothing changes
/// otherwise.
pub open spec fn after_try_insert(m: Map<u64, Vote>, who: u64, vote: Vote) -> Map<u64, Vote> {
    if m.contains_key(who) || m.dom().len() < MAX_MEMBERS {
        m.insert(who, vote)
    } else {
        m
    }
}

/// What `try_insert` returns on a map that held `m`: the value replaced, if
/// any, or the rejected pair where the map is full and the key is new.
pub open spec fn try_insert_outcome(m: Map<u64, Vote>, who: u64, vote: Vote) -> Result<
    Option<Vote>,
    (u64, Vote),
> {
    if m.contains_key(who) {
        Ok(Some(m[who]))
    } else if m.dom().len() < MAX_MEMBERS {
        Ok(None)
    } else {
        Err((who, vote))
    }
}

/// `n` is the number of items of the finite set `s`, and is within the bound.
pub open spec fn counts(n: usize, s: Set<u64>) -> bool {
    s.finite() && n == s.len() && n <= MAX_MEMBERS
}

/// `entries` lists `m`: one entry for each key, in strictly ascending order of
/// key, each with the value that `m` gives its key.
pub open spec fn lists(entries: Seq<(u64, Vote)>, m: Map<u64, Vote>) -> bool {
    &&& m.dom().finite()
    &&& entries.len() == m.dom().len()
    &&& forall|i: int, j: int| 0 <= i < j < entries.len() ==> entries[i].0 < entries[j].0
    &&& forall|i: int|
        0 <= i < entries.len() ==> m.contains_key(#[trigger] entries[i].0) && m[entries[i].0]
            == entries[i].1
    &&& forall|k: u64|
        m.contains_key(k) ==> exists|i: int| 0 <= i < entries.len() && #[trigger] entries[i].0 == k
}

/// `BTreeSet::contains`, reached through the bounded set's `Deref`: whether
/// `who` is in the set.
#[verifier::external_body]
pub(crate) fn members_contains(s: &MemberSet, who: u64) -> (b: bool)
    ensures
        b == member_set(*s).contains(who),
{
    s.contains(&who)
}

/// `Clone::clone` of the bounded set: a set that holds the same items.
#[verifier::external_body]
pub(crate) fn members_clone(s: &MemberSet) -> (c: MemberSet)
    ensures
        member_set(c) == member_set(*s),
{
    s.clone()
}

/// `Clone::clone` of the bounded map: a map that holds the same entries.
#[verifier::external_body]
pub(crate) fn votes_clone(m: &VoteMap) -> (c: VoteMap)
    ensures
        vote_map(c) == vote_map(*m),
{
    m.clone()
}

/// `BTreeSet::len`, reached through the bounded set's `Deref`: the number of
/// items. The set is finite, and every operation of the bounded set keeps it
/// within the bound of its type.
#[verifier::external_body]
pub(crate) fn members_len(s: &MemberSet) -> (n: usize)
    ensures
        counts(n, member_set(*s)),
{
    s.len()
}

/// `BoundedBTreeMap::new`: a map that holds nothing.
#[verifier::external_body]
pub(crate) fn votes_new() -> (m: VoteMap)
    ensures
        vote_map(m) == (Map::<u64, Vote>::empty()),
{
    BoundedBTreeMap::new()
}

/// `BTreeMap::contains_key`, reached through the bounded map's `Deref`:
/// whether `who` has an entry.
#[verifier::external_body]
pub(crate) fn votes_contains_key(m: &VoteMap, who: u64) -> (b: bool)
    ensures
        b == vote_map(*m).contains_key(who),
{
    m.contains_key(&who)
}

/// `BoundedBTreeMap::try_insert`: where the key is present, or the map holds
/// fewer entries than its bound, the entry is written and the value it
/// replaces is returned; otherwise the map is left as it was and the pair
/// comes back.
#[verifier::external_body]
pub(crate) fn votes_try_insert(m: &mut VoteMap, who: u64, vote: Vote) -> (r: Result<
    Option<Vote>,
    (u64, Vote),
>)
    ensures
        vote_map(*final(m)) == after_try_insert(vote_map(*old(m)), who, vote),
        r == try_insert_outcome(vote_map(*old(m)), who, vote),
{
    m.try_insert(who, vote)
}

/// `BTreeMap::iter`, reached through the bounded map's `Deref`, each entry
/// copied out: the entries in ascending order of voter, one for each key. No
/// bounded map holds more entries than its bound.
#[verifier::external_body]
pub(crate) fn votes_entries(m: &VoteMap) -> (v: Vec<(u64, Vote)>)
    ensures
        lists(v@, vote_map(*m)),
        v@.len() <= MAX_MEMBERS,
{
    m.iter().map(|(k, v)| (*k, *v)).collect()
}

} // verus!
