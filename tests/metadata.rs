use stellarcade::metadata_registry::{ContractMetadataRegistry, Error};
use stellarcade::Address;

#[test]
fn registers_and_updates_metadata() {
    let admin = Address(1);
    let target = Address(2);
    let mut m = ContractMetadataRegistry::new();
    assert_eq!(
        m.register_metadata(admin, target, 1, [1u8; 32], "ipfs://v1".to_string(), 10),
        Err(Error::NotInitialized)
    );
    m.init(admin).unwrap();
    assert_eq!(m.init(admin), Err(Error::AlreadyInitialized));
    assert_eq!(
        m.register_metadata(admin, target, 0, [1u8; 32], "ipfs://v0".to_string(), 10),
        Err(Error::InvalidVersion)
    );
    m.register_metadata(admin, target, 1, [1u8; 32], "ipfs://v1".to_string(), 10).unwrap();
    assert_eq!(
        m.register_metadata(admin, target, 2, [1u8; 32], "ipfs://v2".to_string(), 10),
        Err(Error::ContractAlreadyRegistered)
    );
    assert_eq!(
        m.update_metadata(admin, target, 1, [2u8; 32], "ipfs://x".to_string(), 20),
        Err(Error::InvalidVersion)
    );
    m.update_metadata(admin, target, 3, [3u8; 32], "ipfs://v3".to_string(), 30).unwrap();
    let current = m.metadata_of(target).unwrap();
    assert_eq!(current.version, 3);
    assert_eq!(current.docs_uri, "ipfs://v3");
    assert_eq!(current.updated_at, 30);
    let h = m.history(target);
    assert_eq!(h.len(), 2);
    assert_eq!(h[0].version, 1);
    assert_eq!(h[1].schema_hash, [3u8; 32]);
    assert!(m.metadata_of(Address(9)).is_none());
    assert_eq!(
        m.update_metadata(admin, Address(9), 2, [0u8; 32], "u".to_string(), 1),
        Err(Error::ContractNotFound)
    );
    assert_eq!(
        m.update_metadata(Address(5), target, 9, [0u8; 32], "u".to_string(), 1),
        Err(Error::NotAuthorized)
    );
}

fn registry() -> (ContractMetadataRegistry, Address) {
    let admin = Address(1);
    let mut m = ContractMetadataRegistry::new();
    m.init(admin).unwrap();
    (m, admin)
}

#[test]
fn test_register_and_query() {
    let (mut m, admin) = registry();
    let target = Address(2);
    let hash = [1u8; 32];
    m.register_metadata(admin, target, 1, hash, "ipfs://Qm123".to_string(), 0).unwrap();
    let meta = m.metadata_of(target).unwrap();
    assert_eq!(meta.version, 1);
    assert_eq!(meta.schema_hash, hash);
}

#[test]
fn test_update_and_history() {
    let (mut m, admin) = registry();
    let target = Address(2);
    m.register_metadata(admin, target, 1, [1u8; 32], "ipfs://v1".to_string(), 0).unwrap();
    m.update_metadata(admin, target, 2, [2u8; 32], "ipfs://v2".to_string(), 1000).unwrap();
    let meta = m.metadata_of(target).unwrap();
    assert_eq!(meta.version, 2);
    assert_eq!(meta.schema_hash, [2u8; 32]);
    assert_eq!(meta.updated_at, 1000);
    let history = m.history(target);
    assert_eq!(history.len(), 2);
    assert_eq!(history[0].version, 1);
    assert_eq!(history[1].version, 2);
}

#[test]
fn test_unauthorized_registration() {
    let (mut m, _admin) = registry();
    assert_eq!(
        m.register_metadata(Address(7), Address(2), 1, [1u8; 32], "ipfs://v1".to_string(), 0),
        Err(Error::NotAuthorized)
    );
    assert!(m.metadata_of(Address(2)).is_none());
}
