//! Community records, the notifications about them, and their stored form.

use crate::account::AccountId;
use crate::store::StoredCommunity;
use vstd::prelude::*;

verus! {

/// A community: a named, addressed entity with one owner and a council.
#[derive(Debug)]
pub struct CommunityData {
    /// The identifier under which the registry holds the community.
    pub id: u128,
    /// Free-form name, fixed at creation.
    pub name: String,
    /// Free-form address, fixed at creation.
    pub address: String,
    /// The account that created the community; it alone may replace the
    /// council.
    pub owner: AccountId,
    /// The current council, in order.
    pub councils: Vec<AccountId>,
}

/// What a community record says, as mathematical values.
pub struct CommunityView {
    pub id: u128,
    pub name: Seq<char>,
    pub address: Seq<char>,
    pub owner: AccountId,
    pub councils: Seq<AccountId>,
}

impl View for CommunityData {
    type V = CommunityView;

    open spec fn view(&self) -> CommunityView {
        CommunityView {
            id: self.id,
            name: self.name@,
            address: self.address@,
            owner: self.owner,
            councils: self.councils@,
        }
    }
}

/// The accounts that a sequence of raw identities stands for.
pub open spec fn accounts_of(raw: Seq<[u8; 32]>) -> Seq<AccountId> {
    Seq::new(raw.len(), |i: int| AccountId { bytes: raw[i] })
}

/// The record that `stored` stands for when it lies under `id`.
pub open spec fn stored_view(id: u128, stored: StoredCommunity) -> CommunityView {
    CommunityView {
        id,
        name: stored.0@,
        address: stored.1@,
        owner: AccountId { bytes: stored.2 },
        councils: accounts_of(stored.3@),
    }
}

/// The record of a community that `caller` has just created: `caller` owns it
/// and is its whole council.
pub open spec fn founded(
    caller: AccountId,
    id: u128,
    name: Seq<char>,
    address: Seq<char>,
) -> CommunityView {
    CommunityView { id, name, address, owner: caller, councils: seq![caller] }
}

/// `record` after its council was replaced by `members` on behalf of `caller`:
/// the new council is `members` followed by `caller`, whether or not `caller`
/// occurs in `members`, and nothing else changes.
pub open spec fn with_council(
    record: CommunityView,
    members: Seq<AccountId>,
    caller: AccountId,
) -> CommunityView {
    CommunityView { councils: members.push(caller), ..record }
}

/// Copies raw identities out of storage.
pub(crate) fn accounts_from_raw(raw: &Vec<[u8; 32]>) -> (accounts: Vec<AccountId>)
    ensures
        accounts@ == accounts_of(raw@),
{
    let mut accounts: Vec<AccountId> = Vec::new();
    let mut i: usize = 0;
    while i < raw.len()
        invariant
            i <= raw.len(),
            accounts@.len() == i,
            forall|j: int| 0 <= j < i ==> accounts@[j] == (AccountId { bytes: raw@[j] }),
        decreases raw.len() - i,
    {
        accounts.push(AccountId { bytes: raw[i] });
        i += 1;
    }
    assert(accounts@ =~= accounts_of(raw@));
    accounts
}

/// Lays accounts out as raw identities for storage.
pub(crate) fn accounts_to_raw(accounts: &Vec<AccountId>) -> (raw: Vec<[u8; 32]>)
    ensures
        accounts_of(raw@) == accounts@,
{
    let mut raw: Vec<[u8; 32]> = Vec::new();
    let mut i: usize = 0;
    while i < accounts.len()
        invariant
            i <= accounts.len(),
            raw@.len() == i,
            forall|j: int| 0 <= j < i ==> raw@[j] == accounts@[j].bytes,
        decreases accounts.len() - i,
    {
        raw.push(accounts[i].bytes);
        i += 1;
    }
    assert(accounts_of(raw@) =~= accounts@);
    raw
}

impl Clone for CommunityData {
    fn clone(&self) -> (copy: CommunityData)
        ensures
            copy@ == self@,
    {
        CommunityData {
            id: self.id,
            name: self.name.clone(),
            address: self.address.clone(),
            owner: self.owner,
            councils: self.councils.clone(),
        }
    }
}

impl CommunityData {
    /// Whether `caller` may replace the council: only the owner may.
    pub fn is_authorized(&self, caller: &AccountId) -> (allowed: bool)
        ensures
            allowed == (self.owner == *caller),
    {
        self.owner == *caller
    }

    /// Reads the record that lies in storage under `id`.
    pub(crate) fn from_stored(id: u128, stored: &StoredCommunity) -> (record: CommunityData)
        ensures
            record@ == stored_view(id, *stored),
    {
        CommunityData {
            id,
            name: stored.0.clone(),
            address: stored.1.clone(),
            owner: AccountId { bytes: stored.2 },
            councils: accounts_from_raw(&stored.3),
        }
    }

    /// Lays the record out for storage under its identifier.
    pub(crate) fn into_stored(self) -> (stored: StoredCommunity)
        ensures
            stored_view(self.id, stored) == self@,
    {
        let raw = accounts_to_raw(&self.councils);
        (self.name, self.address, self.owner.bytes, raw)
    }
}

/// Notification that a community was created.
#[derive(Debug, PartialEq, Eq)]
pub struct CreateComunity {
    pub owner: AccountId,
    pub name: String,
    pub community_id: u128,
}

/// Notification that the council of a community was replaced.
#[derive(Debug, PartialEq, Eq)]
pub struct CreateCouncil {
    pub owner: AccountId,
    pub name: String,
    pub community_id: u128,
    pub council: Vec<AccountId>,
}

} // verus!
