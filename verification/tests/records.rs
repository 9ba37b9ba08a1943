use community_auth::{AccountId, CommunityData};

fn record_owned_by(owner: AccountId) -> CommunityData {
    CommunityData {
        id: 3,
        name: "gamma".to_string(),
        address: "addr3".to_string(),
        owner,
        councils: vec![AccountId::from([9; 32]), owner],
    }
}

#[test]
fn accounts_with_equal_bytes_are_the_same() {
    let mut bytes = [0u8; 32];
    bytes[31] = 1;
    assert_eq!(AccountId::from(bytes), AccountId { bytes });
    assert!(AccountId::from(bytes).same_as(&AccountId { bytes }));
}

#[test]
fn accounts_that_differ_in_one_byte_are_different() {
    let base = AccountId::from([0x11; 32]);
    for position in 0..32 {
        let mut bytes = [0x11u8; 32];
        bytes[position] = 0x12;
        let other = AccountId::from(bytes);
        assert_ne!(base, other);
        assert!(!base.same_as(&other));
        assert!(!other.same_as(&base));
    }
}

#[test]
fn only_the_owner_is_authorized() {
    let owner = AccountId::from([1; 32]);
    let member = AccountId::from([9; 32]);
    let stranger = AccountId::from([2; 32]);
    let record = record_owned_by(owner);
    assert!(record.is_authorized(&owner));
    assert!(!record.is_authorized(&member));
    assert!(!record.is_authorized(&stranger));
}

#[test]
fn clone_copies_every_field() {
    let owner = AccountId::from([1; 32]);
    let record = record_owned_by(owner);
    let copy = record.clone();
    assert_eq!(copy.id, 3);
    assert_eq!(copy.name, "gamma");
    assert_eq!(copy.address, "addr3");
    assert_eq!(copy.owner, owner);
    assert_eq!(copy.councils, vec![AccountId::from([9; 32]), owner]);
}
