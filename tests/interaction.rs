use stellarcade::interaction_library::{ContractInteractionLibrary, Error};
use stellarcade::Address;

fn setup() -> (ContractInteractionLibrary, Address) {
    let admin = Address(1);
    let mut l = ContractInteractionLibrary::new();
    l.init(admin).unwrap();
    (l, admin)
}

#[test]
fn interaction_test_init() {
    let (l, _) = setup();
    assert_eq!(l.get_call_log(0).err(), Some(Error::LogNotFound));
}

#[test]
fn interaction_double_init_fails() {
    let (mut l, admin) = setup();
    assert_eq!(l.init(admin), Err(Error::AlreadyInitialized));
}

#[test]
fn test_register_and_resolve() {
    let (mut l, admin) = setup();
    let target = Address(2);
    l.register_contract(admin, "token-contract".to_string(), target, 1).unwrap();
    assert_eq!(l.resolve("token-contract".to_string()), Ok(target));
}

#[test]
fn test_duplicate_name_rejected() {
    let (mut l, admin) = setup();
    l.register_contract(admin, "foo".to_string(), Address(2), 1).unwrap();
    assert_eq!(
        l.register_contract(admin, "foo".to_string(), Address(2), 2),
        Err(Error::NameAlreadyRegistered)
    );
}

#[test]
fn test_deactivate_blocks_resolve() {
    let (mut l, admin) = setup();
    l.register_contract(admin, "bar".to_string(), Address(2), 1).unwrap();
    l.deactivate_contract(admin, "bar".to_string()).unwrap();
    assert_eq!(l.resolve("bar".to_string()), Err(Error::ContractInactive));
}

#[test]
fn test_upgrade_reactivates() {
    let (mut l, admin) = setup();
    let addr2 = Address(3);
    l.register_contract(admin, "baz".to_string(), Address(2), 1).unwrap();
    l.deactivate_contract(admin, "baz".to_string()).unwrap();
    l.upgrade_contract(admin, "baz".to_string(), addr2, 2).unwrap();
    assert_eq!(l.resolve("baz".to_string()), Ok(addr2));
    assert_eq!(l.get_contract("baz".to_string()).unwrap().version, 2);
}

#[test]
fn test_empty_name_rejected() {
    let (mut l, admin) = setup();
    assert_eq!(l.register_contract(admin, String::new(), Address(2), 1), Err(Error::InvalidName));
    let long = "x".repeat(33);
    assert_eq!(l.register_contract(admin, long, Address(2), 1), Err(Error::InvalidName));
    // 16 two-byte characters fill the 32 bytes exactly
    l.register_contract(admin, "é".repeat(16), Address(2), 1).unwrap();
    assert_eq!(l.register_contract(admin, "é".repeat(17), Address(2), 1), Err(Error::InvalidName));
}

#[test]
fn test_zero_version_rejected() {
    let (mut l, admin) = setup();
    assert_eq!(l.register_contract(admin, "valid".to_string(), Address(2), 0), Err(Error::InvalidVersion));
}

#[test]
fn test_unknown_contract_panics() {
    let (l, _) = setup();
    assert_eq!(l.get_contract("ghost".to_string()).err(), Some(Error::ContractNotFound));
}

#[test]
fn test_call_log_roundtrip() {
    let (mut l, _) = setup();
    let id = l.log_call("staking".to_string(), Address(4), true, 77).unwrap();
    let record = l.get_call_log(id).unwrap();
    assert!(record.success);
    assert_eq!(record.callee_name, "staking");
    assert_eq!(record.timestamp, 77);
}

#[test]
fn test_call_log_increments() {
    let (mut l, _) = setup();
    let id0 = l.log_call("game".to_string(), Address(4), true, 0).unwrap();
    let id1 = l.log_call("game".to_string(), Address(4), false, 0).unwrap();
    assert_eq!(id0, 0);
    assert_eq!(id1, 1);
}

#[test]
fn test_get_contract_returns_full_entry() {
    let (mut l, admin) = setup();
    l.register_contract(admin, "my-contract".to_string(), Address(2), 3).unwrap();
    let entry = l.get_contract("my-contract".to_string()).unwrap();
    assert_eq!(entry.version, 3);
    assert!(entry.active);
    assert_eq!(
        l.register_contract(Address(9), "other".to_string(), Address(2), 3),
        Err(Error::NotAuthorized)
    );
}
