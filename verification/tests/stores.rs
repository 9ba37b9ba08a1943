use community_auth::store::{CommunityStore, StoredCommunity};
use community_auth::{AccountId, CommunityAuth, Error};
use ink_storage::collections::HashMap;

fn account(byte: u8) -> AccountId {
    AccountId::from([byte; 32])
}

fn stored(name: &str, address: &str, owner: u8, council: &[u8]) -> StoredCommunity {
    (
        name.to_string(),
        address.to_string(),
        [owner; 32],
        council.iter().map(|byte| [*byte; 32]).collect(),
    )
}

#[test]
fn registry_over_an_empty_store_is_empty() {
    let registry = CommunityAuth::from_store(CommunityStore { map: HashMap::new() });
    assert_eq!(registry.len(), 0);
    assert!(registry.get_community(1).is_none());
}

#[test]
fn registry_reads_the_entries_of_a_restored_store() {
    let mut map = HashMap::new();
    map.insert(4, stored("delta", "addr4", 7, &[2, 3, 7]));
    map.insert(9, stored("iota", "addr9", 8, &[8]));
    let registry = CommunityAuth::from_store(CommunityStore { map });
    assert_eq!(registry.len(), 2);
    let delta = registry.get_community(4).unwrap();
    assert_eq!(delta.id, 4);
    assert_eq!(delta.name, "delta");
    assert_eq!(delta.address, "addr4");
    assert_eq!(delta.owner, account(7));
    assert_eq!(delta.councils, vec![account(2), account(3), account(7)]);
    let iota = registry.get_community(9).unwrap();
    assert_eq!(iota.id, 9);
    assert_eq!(iota.owner, account(8));
    assert_eq!(iota.councils, vec![account(8)]);
    assert!(registry.get_community(5).is_none());
}

#[test]
fn registry_over_a_restored_store_applies_its_rules() {
    let mut map = HashMap::new();
    map.insert(4, stored("delta", "addr4", 7, &[7]));
    let mut registry = CommunityAuth::from_store(CommunityStore { map });
    assert_eq!(
        registry.create_community(account(8), 4, "other".to_string(), "else".to_string()),
        Err(Error::AlreadyExists)
    );
    assert_eq!(
        registry.create_council_for_community(account(8), 4, vec![account(8)]),
        Err(Error::NotOwner)
    );
    registry
        .create_council_for_community(account(7), 4, vec![account(2)])
        .unwrap();
    assert_eq!(
        registry.get_community(4).unwrap().councils,
        vec![account(2), account(7)]
    );
}

#[test]
fn store_of_a_registry_holds_what_was_recorded() {
    let x = account(7);
    let b = account(2);
    let mut registry = CommunityAuth::new();
    registry
        .create_community(x, 1, "alpha".to_string(), "addr1".to_string())
        .unwrap();
    registry
        .create_community(x, 2, "beta".to_string(), "addr2".to_string())
        .unwrap();
    registry.create_council_for_community(x, 2, vec![b]).unwrap();
    let map = &registry.store().map;
    assert_eq!(map.len(), 2);
    assert_eq!(map.get(&1), Some(&stored("alpha", "addr1", 7, &[7])));
    assert_eq!(map.get(&2), Some(&stored("beta", "addr2", 7, &[2, 7])));
    assert_eq!(map.get(&3), None);
}
