use stellarcade::session_nonce::{Error, SessionNonceManagerContract};
use stellarcade::Address;

fn setup() -> (SessionNonceManagerContract, Address) {
    let admin = Address(1);
    let mut c = SessionNonceManagerContract::new();
    c.init(admin).unwrap();
    (c, admin)
}

#[test]
fn test_init_succeeds() {
    let (c, _) = setup();
    assert!(!c.is_nonce_valid(Address(2), 0, "login".to_string()));
}

#[test]
fn nonce_double_init_fails() {
    let (mut c, admin) = setup();
    assert_eq!(c.init(admin), Err(Error::AlreadyInitialized));
}

#[test]
fn test_issue_and_validate_nonce() {
    let (mut c, _) = setup();
    let user = Address(2);
    let nonce = c.issue_nonce(user, "login".to_string()).unwrap();
    assert_eq!(nonce, 0);
    assert!(c.is_nonce_valid(user, nonce, "login".to_string()));
    assert!(!c.is_nonce_valid(user, nonce, "other".to_string()));
    assert!(!c.is_nonce_valid(Address(3), nonce, "login".to_string()));
}

#[test]
fn test_consume_nonce_marks_as_used() {
    let (mut c, _) = setup();
    let user = Address(2);
    let nonce = c.issue_nonce(user, "transfer".to_string()).unwrap();
    c.consume_nonce(user, nonce, "transfer".to_string()).unwrap();
    assert!(!c.is_nonce_valid(user, nonce, "transfer".to_string()));
}

#[test]
fn test_replay_is_rejected() {
    let (mut c, _) = setup();
    let user = Address(2);
    let nonce = c.issue_nonce(user, "withdraw".to_string()).unwrap();
    c.consume_nonce(user, nonce, "withdraw".to_string()).unwrap();
    assert_eq!(c.consume_nonce(user, nonce, "withdraw".to_string()), Err(Error::NonceAlreadyUsed));
}

#[test]
fn test_nonces_increment_monotonically() {
    let (mut c, _) = setup();
    let user = Address(2);
    let n0 = c.issue_nonce(user, "action".to_string()).unwrap();
    let n1 = c.issue_nonce(user, "action".to_string()).unwrap();
    let n2 = c.issue_nonce(user, "action".to_string()).unwrap();
    assert_eq!(n0, 0);
    assert_eq!(n1, 1);
    assert_eq!(n2, 2);
    assert_eq!(c.issue_nonce(user, "other".to_string()), Ok(0));
}

#[test]
fn test_unissued_nonce_is_invalid() {
    let (c, _) = setup();
    assert!(!c.is_nonce_valid(Address(2), 99, "something".to_string()));
}

#[test]
fn test_empty_purpose_is_rejected() {
    let (mut c, _) = setup();
    assert_eq!(c.issue_nonce(Address(2), String::new()), Err(Error::InvalidPurpose));
    assert_eq!(c.consume_nonce(Address(2), 0, String::new()), Err(Error::InvalidPurpose));
}

#[test]
fn test_revoke_nonce() {
    let (mut c, admin) = setup();
    let user = Address(2);
    let nonce = c.issue_nonce(user, "vote".to_string()).unwrap();
    c.revoke_nonce(admin, user, nonce).unwrap();
    assert!(!c.is_nonce_valid(user, nonce, "vote".to_string()));
    assert_eq!(c.revoke_nonce(user, user, nonce), Err(Error::NotAuthorized));
}

#[test]
fn test_consume_revoked_nonce_panics() {
    let (mut c, admin) = setup();
    let user = Address(2);
    let nonce = c.issue_nonce(user, "vote".to_string()).unwrap();
    c.revoke_nonce(admin, user, nonce).unwrap();
    assert_eq!(c.consume_nonce(user, nonce, "vote".to_string()), Err(Error::NonceRevoked));
}

#[test]
fn test_consume_unissued_nonce_panics() {
    let (mut c, _) = setup();
    assert_eq!(c.consume_nonce(Address(2), 99, "vote".to_string()), Err(Error::NonceNotFound));
}

#[test]
fn test_events_emitted_on_issue() {
    let (mut c, _) = setup();
    let nonce = c.issue_nonce(Address(2), "event-test".to_string()).unwrap();
    assert_eq!(nonce, 0);
}
