//! The registry of communities and its operations.
//!
//! The registry is a state machine. Its state is a map from identifiers to
//! community records, its view; an operation takes the calling account and
//! its arguments, and either changes the state and returns the notification
//! of the change, or is rejected and leaves the state exactly as it was.

use crate::account::AccountId;
use crate::community::{
    founded, stored_view, with_council, CommunityData, CommunityView, CreateComunity,
    CreateCouncil,
};
use crate::store::{
    store_contents, store_get, store_insert, store_len, store_new, store_remove_entry,
    CommunityStore, StoredCommunity,
};
use crate::Error;
use vstd::prelude::*;

verus! {

/// The records that the entries of a store stand for, by identifier. The
/// record under an identifier carries that identifier.
pub open spec fn communities_of(entries: Map<u128, StoredCommunity>) -> Map<u128, CommunityView> {
    Map::new(|id: u128| entries.contains_key(id), |id: u128| stored_view(id, entries[id]))
}

/// The registry: every community that exists, under its identifier.
pub struct CommunityAuth {
    community: CommunityStore,
}

impl View for CommunityAuth {
    type V = Map<u128, CommunityView>;

    closed spec fn view(&self) -> Map<u128, CommunityView> {
        communities_of(store_contents(self.community))
    }
}

impl CommunityAuth {
    /// The registry holds finitely many communities, no more than its store
    /// can count. This holds of every registry that this module hands out,
    /// and `len` shows it of any registry.
    pub closed spec fn wf(&self) -> bool {
        &&& store_contents(self.community).dom().finite()
        &&& store_contents(self.community).len() <= u32::MAX
    }

    /// The registry has the identifiers of its store, so as many.
    proof fn lemma_view_dom(&self)
        ensures
            self@.dom() == store_contents(self.community).dom(),
            self@.len() == store_contents(self.community).len(),
    {
        assert(self@.dom() =~= store_contents(self.community).dom());
    }

    /// An empty registry.
    pub fn new() -> (registry: CommunityAuth)
        ensures
            registry.wf(),
            registry@ == (Map::<u128, CommunityView>::empty()),
    {
        let registry = CommunityAuth { community: store_new() };
        assert(registry@ =~= Map::<u128, CommunityView>::empty());
        registry
    }

    /// An empty registry.
    pub fn default() -> (registry: CommunityAuth)
        ensures
            registry.wf(),
            registry@ == (Map::<u128, CommunityView>::empty()),
    {
        CommunityAuth::new()
    }

    /// The registry over `community`, a store that the host has restored:
    /// it holds the communities of the store.
    pub fn from_store(community: CommunityStore) -> (registry: CommunityAuth)
        ensures
            registry.wf(),
            registry@ == communities_of(store_contents(community)),
    {
        // The store's own count shows that it holds finitely many entries.
        let _count: u32 = store_len(&community);
        CommunityAuth { community }
    }

    /// The store of the registry, for the host to commit.
    pub fn store(&self) -> (community: &CommunityStore)
        ensures
            communities_of(store_contents(*community)) == self@,
    {
        &self.community
    }

    /// The number of communities.
    pub fn len(&self) -> (count: u32)
        ensures
            self.wf(),
            self@.dom().finite(),
            count == self@.len(),
    {
        proof {
            self.lemma_view_dom();
        }
        store_len(&self.community)
    }

    /// Records a new community under `community_id`, owned by `caller`, with
    /// `caller` as its whole council, and returns the notification of it. If
    /// the identifier is taken, nothing changes and the call is rejected with
    /// `AlreadyExists`, whoever calls.
    ///
    /// The store counts its communities in a `u32`: a new identifier needs
    /// fewer than `u32::MAX` communities in the registry.
    pub fn create_community(
        &mut self,
        caller: AccountId,
        community_id: u128,
        name: String,
        address: String,
    ) -> (result: Result<CreateComunity, Error>)
        requires
            old(self).wf(),
            old(self)@.contains_key(community_id) || old(self)@.len() < u32::MAX,
        ensures
            final(self).wf(),
            // The identifier is taken: rejected, and nothing changes.
            old(self)@.contains_key(community_id) ==> (result matches Err(Error::AlreadyExists))
                && final(self)@ == old(self)@,
            // The identifier is free: the community is recorded and notified.
            !old(self)@.contains_key(community_id) ==> (result matches Ok(event)
                && event.owner == caller && event.name@ == name@
                && event.community_id == community_id)
                && final(self)@ == old(self)@.insert(
                    community_id,
                    founded(caller, community_id, name@, address@),
                ),
    {
        let owner = caller;
        if self.get_community(community_id).is_some() {
            return Err(Error::AlreadyExists);
        }
        let mut council = Vec::new();
        council.push(owner);
        let new_community = CommunityData {
            id: community_id,
            name: name.clone(),
            address: address,
            owner: owner,
            councils: council,
        };
        assert(new_community@.councils =~= seq![caller]);
        self.update_community(new_community);
        Ok(CreateComunity { owner: owner, name: name, community_id: community_id })
    }

    /// Replaces the council of the community under `community_id` by
    /// `council_members` followed by `caller`, and returns the notification of
    /// it. `caller` is appended whether or not it is among `council_members`.
    ///
    /// Only the owner may do so. Where there is no community under
    /// `community_id` the call is rejected with `NotExists`; where `caller` is
    /// not its owner, with `NotOwner`. A rejected call changes nothing. An
    /// accepted one changes the council of that one community and nothing
    /// else: identifier, name, address and owner stay as they are.
    pub fn create_council_for_community(
        &mut self,
        caller: AccountId,
        community_id: u128,
        council_members: Vec<AccountId>,
    ) -> (result: Result<CreateCouncil, Error>)
        requires
            old(self).wf(),
        ensures
            final(self).wf(),
            // No such community: rejected, and nothing changes.
            !old(self)@.contains_key(community_id) ==> (result matches Err(Error::NotExists))
                && final(self)@ == old(self)@,
            // Not the owner: rejected, and nothing changes.
            old(self)@.contains_key(community_id) && old(self)@[community_id].owner != caller
                ==> (result matches Err(Error::NotOwner)) && final(self)@ == old(self)@,
            // The owner: the council is replaced and the replacement notified.
            old(self)@.contains_key(community_id) && old(self)@[community_id].owner == caller
                ==> (result matches Ok(event) && event.owner == caller
                && event.name@ == old(self)@[community_id].name
                && event.community_id == community_id
                && event.council@ == council_members@.push(caller))
                && final(self)@ == old(self)@.insert(
                    community_id,
                    with_council(old(self)@[community_id], council_members@, caller),
                ),
            // An accepted call keeps identifier, name, address and owner, and
            // sets the council to the members followed by the owner.
            result is Ok ==> final(self)@[community_id].id == old(self)@[community_id].id,
            result is Ok ==> final(self)@[community_id].name == old(self)@[community_id].name,
            result is Ok ==> final(self)@[community_id].address
                == old(self)@[community_id].address,
            result is Ok ==> final(self)@[community_id].owner == old(self)@[community_id].owner,
            result is Ok ==> final(self)@[community_id].councils
                == council_members@.push(old(self)@[community_id].owner),
    {
        let transaction_caller = caller;
        let community = match self.get_community(community_id) {
            Some(community) => community,
            None => return Err(Error::NotExists),
        };
        if !community.is_authorized(&transaction_caller) {
            return Err(Error::NotOwner);
        }
        let mut new_community = CommunityData {
            id: community.id,
            name: community.name,
            address: community.address,
            owner: community.owner,
            councils: council_members,
        };
        new_community.councils.push(transaction_caller);
        let result = self.delete_community(community_id);
        if let Err(error) = result {
            return Err(error);
        }
        self.update_community(new_community.clone());
        assert(self@ =~= old(self)@.insert(
            community_id,
            with_council(old(self)@[community_id], council_members@, caller),
        ));
        Ok(
            CreateCouncil {
                owner: transaction_caller,
                name: new_community.name,
                community_id: new_community.id,
                council: new_community.councils,
            },
        )
    }

    /// A copy of the community under `community_id`, if there is one. Anyone
    /// may ask.
    pub fn get_community(&self, community_id: u128) -> (found: Option<CommunityData>)
        ensures
            found is Some <==> self@.contains_key(community_id),
            found matches Some(record) ==> record@ == self@[community_id]
                && record.id == community_id,
    {
        match store_get(&self.community, community_id) {
            Some(stored) => Some(CommunityData::from_stored(community_id, stored)),
            None => None,
        }
    }

    /// Removes the community under `id`; `NotExists` if there is none, and
    /// then nothing changes.
    fn delete_community(&mut self, id: u128) -> (result: Result<(), Error>)
        requires
            old(self).wf(),
        ensures
            final(self).wf(),
            !old(self)@.contains_key(id) ==> (result matches Err(Error::NotExists))
                && final(self)@ == old(self)@,
            old(self)@.contains_key(id) ==> result is Ok && final(self)@ == old(self)@.remove(id)
                && final(self)@.len() < u32::MAX,
    {
        match store_remove_entry(&mut self.community, id) {
            None => {
                assert(self@ =~= old(self)@);
                Err(Error::NotExists)
            },
            Some(_) => {
                proof {
                    self.lemma_view_dom();
                }
                assert(self@ =~= old(self)@.remove(id));
                Ok(())
            },
        }
    }

    /// Puts `community` under its identifier, in place of what was there.
    fn update_community(&mut self, community: CommunityData)
        requires
            old(self).wf(),
            old(self)@.contains_key(community.id) || old(self)@.len() < u32::MAX,
        ensures
            final(self).wf(),
            final(self)@ == old(self)@.insert(community.id, community@),
    {
        proof {
            self.lemma_view_dom();
        }
        let id: u128 = community.id;
        let _ = store_insert(&mut self.community, id, community.into_stored());
        assert(self@ =~= old(self)@.insert(community.id, community@));
    }
}

/// Every record of a registry carries the identifier under which it lies.
pub proof fn lemma_record_carries_identifier(registry: CommunityAuth, id: u128)
    requires
        registry@.contains_key(id),
    ensures
        registry@[id].id == id,
{
}

/// No two communities of a registry share an identifier: records under
/// different identifiers carry different ones.
pub proof fn lemma_identifiers_unique(registry: CommunityAuth, first: u128, second: u128)
    requires
        registry@.contains_key(first),
        registry@.contains_key(second),
        first != second,
    ensures
        registry@[first].id != registry@[second].id,
{
}

} // verus!
