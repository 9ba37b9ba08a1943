//! The storage hash map that backs the registry, and what is assumed of it.
//!
//! Nothing in this file is proved. Each function below calls into
//! `ink_storage::collections::HashMap` and states what the call does to the
//! entries of the map and what it returns; the registry is verified against
//! these statements.

use ink_storage::collections::hashmap::Entry;
use ink_storage::collections::HashMap;
use vstd::prelude::*;

verus! {

/// A community as it lies in storage under its identifier: name, address,
/// owner and council, the accounts as raw bytes.
pub type StoredCommunity = (String, String, [u8; 32], Vec<[u8; 32]>);

/// The storage hash map of communities, keyed by identifier.
///
/// The field is public for the contract that owns the storage: it restores
/// the map at the start of a call and commits it at the end. The verifier
/// does not look inside; verified code reaches the map only through the
/// functions below.
#[verifier::external_body]
pub struct CommunityStore {
    pub map: HashMap<u128, StoredCommunity>,
}

/// The entries that a store holds: the identifiers with a community under
/// them, each with that community.
pub uninterp spec fn store_contents(store: CommunityStore) -> Map<u128, StoredCommunity>;

/// `HashMap::new` of `ink_storage`: the new map holds no entry.
#[verifier::external_body]
pub(crate) fn store_new() -> (fresh: CommunityStore)
    ensures
        store_contents(fresh) == (Map::<u128, StoredCommunity>::empty()),
{
    CommunityStore { map: HashMap::new() }
}

/// Whether `entries` are finitely many, `count` of them.
pub open spec fn holds_exactly(entries: Map<u128, StoredCommunity>, count: nat) -> bool {
    entries.dom().finite() && entries.len() == count
}

/// `HashMap::len` of `ink_storage`: the map holds finitely many entries, and
/// the call returns how many.
#[verifier::external_body]
pub(crate) fn store_len(store: &CommunityStore) -> (count: u32)
    ensures
        holds_exactly(store_contents(*store), count as nat),
{
    store.map.len()
}

/// `HashMap::get` of `ink_storage`: the call returns the entry under `id` if
/// the map holds one, and `None` if it holds none.
#[verifier::external_body]
pub(crate) fn store_get(store: &CommunityStore, id: u128) -> (found: Option<&StoredCommunity>)
    ensures
        found matches Some(entry) ==> store_contents(*store).contains_key(id)
            && *entry == store_contents(*store)[id],
        found is None ==> !store_contents(*store).contains_key(id),
{
    store.map.get(&id)
}

/// `HashMap::insert` of `ink_storage`: afterwards the map holds `entry` under
/// `id` and is otherwise as before; the call returns the entry that was under
/// `id` before, if there was one. The map counts its entries in a `u32`, and
/// the count overflows where a new identifier is put into a map of
/// `u32::MAX` entries: such a call is not admitted.
#[verifier::external_body]
pub(crate) fn store_insert(
    store: &mut CommunityStore,
    id: u128,
    entry: StoredCommunity,
) -> (previous: Option<StoredCommunity>)
    requires
        store_contents(*old(store)).contains_key(id)
            || store_contents(*old(store)).len() < u32::MAX,
    ensures
        store_contents(*final(store)) == store_contents(*old(store)).insert(id, entry),
        store_contents(*old(store)).contains_key(id) ==> previous == Some(
            store_contents(*old(store))[id],
        ),
        !store_contents(*old(store)).contains_key(id) ==> previous is None,
{
    store.map.insert(id, entry)
}

/// `HashMap::entry` of `ink_storage`, and `OccupiedEntry::remove_entry` where
/// the entry is occupied: if the map holds an entry under `id`, that entry
/// leaves the map and is returned with its identifier; if it holds none, the
/// map stays as it is and the call returns `None`.
#[verifier::external_body]
pub(crate) fn store_remove_entry(
    store: &mut CommunityStore,
    id: u128,
) -> (removed: Option<(u128, StoredCommunity)>)
    ensures
        store_contents(*old(store)).contains_key(id) ==> removed == Some(
            (id, store_contents(*old(store))[id]),
        ) && store_contents(*final(store)) == store_contents(*old(store)).remove(id),
        !store_contents(*old(store)).contains_key(id) ==> removed is None
            && store_contents(*final(store)) == store_contents(*old(store)),
{
    match store.map.entry(id) {
        Entry::Vacant(_) => None,
        Entry::Occupied(occupied) => Some(occupied.remove_entry()),
    }
}

} // verus!
