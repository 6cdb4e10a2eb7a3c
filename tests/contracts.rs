use stellarcade::circuit_breaker::{self, BreakerStatus, ContractCircuitBreaker};
use stellarcade::escrow_vault::{self, EscrowStatus, EscrowVault};
use stellarcade::token::TokenLedger;
use stellarcade::upgrade_timelock::{self, ContractUpgradeTimelock, UpgradeStatus};
use stellarcade::Address;

fn breaker_setup() -> (ContractCircuitBreaker, Address) {
    let admin = Address(1);
    let mut b = ContractCircuitBreaker::new();
    b.init(admin, 3).unwrap();
    (b, admin)
}

#[test]
fn lib_test_init() {
    let (b, _admin) = breaker_setup();
    assert_eq!(b.breaker_state(Address(9)), None);
}

#[test]
fn test_automatic_tripping() {
    let (mut b, admin) = breaker_setup();
    let target = Address(50);

    b.record_failure(admin, target, 1, 10).unwrap();
    let state = b.breaker_state(target).unwrap();
    assert_eq!(state.failure_count, 1);
    assert_eq!(state.status, BreakerStatus::Closed);

    b.record_failure(admin, target, 1, 11).unwrap();
    let state = b.breaker_state(target).unwrap();
    assert_eq!(state.failure_count, 2);
    assert_eq!(state.status, BreakerStatus::Closed);

    b.record_failure(admin, target, 1, 12).unwrap();
    let state = b.breaker_state(target).unwrap();
    assert_eq!(state.failure_count, 3);
    assert_eq!(state.status, BreakerStatus::Open);
    assert_eq!(state.last_failure_ledger, 12);

    // an open breaker no longer counts
    b.record_failure(admin, target, 1, 13).unwrap();
    assert_eq!(b.breaker_state(target).unwrap().failure_count, 3);
}

#[test]
fn test_manual_trip_and_reset() {
    let (mut b, admin) = breaker_setup();
    let target = Address(50);

    b.trip(admin, target).unwrap();
    assert_eq!(b.breaker_state(target).unwrap().status, BreakerStatus::Open);

    b.reset(admin, target).unwrap();
    let state = b.breaker_state(target).unwrap();
    assert_eq!(state.status, BreakerStatus::Closed);
    assert_eq!(state.failure_count, 0);
}

#[test]
fn breaker_errors() {
    let mut b = ContractCircuitBreaker::new();
    assert_eq!(b.trip(Address(1), Address(2)), Err(circuit_breaker::Error::NotInitialized));
    assert_eq!(b.init(Address(1), 0), Err(circuit_breaker::Error::InvalidThreshold));
    b.init(Address(1), 2).unwrap();
    assert_eq!(b.init(Address(1), 2), Err(circuit_breaker::Error::AlreadyInitialized));
    assert_eq!(
        b.record_failure(Address(3), Address(2), 0, 1),
        Err(circuit_breaker::Error::NotAuthorized)
    );
    assert_eq!(b.breaker_state(Address(2)), None);
}

#[test]
fn test_queue_and_execute() {
    let admin = Address(1);
    let target = Address(2);
    let mut t = ContractUpgradeTimelock::new();
    t.init(admin, 86400).unwrap();

    let uid = t.queue_upgrade(admin, target, "HASH1".to_string(), 1000 + 86400 + 1, 1000).unwrap();

    let done = t.execute_upgrade(admin, uid, 1000 + 86400 + 100).unwrap();
    assert_eq!(done.target_contract, target);
    let state = t.upgrade_state(uid).unwrap();
    assert_eq!(state.status, UpgradeStatus::Executed);
    assert_eq!(state.payload_hash, "HASH1");
}

#[test]
fn test_execute_too_early_fails() {
    let admin = Address(1);
    let mut t = ContractUpgradeTimelock::new();
    t.init(admin, 86400).unwrap();
    let uid = t.queue_upgrade(admin, Address(2), "H2".to_string(), 1000 + 86400 + 1, 1000).unwrap();
    assert_eq!(
        t.execute_upgrade(admin, uid, 1000),
        Err(upgrade_timelock::Error::TimelockNotElapsed)
    );
    assert_eq!(t.upgrade_state(uid).unwrap().status, UpgradeStatus::Queued);
}

#[test]
fn test_cancel_upgrade() {
    let admin = Address(1);
    let mut t = ContractUpgradeTimelock::new();
    t.init(admin, 3600).unwrap();
    let uid = t.queue_upgrade(admin, Address(2), "H3".to_string(), 1000 + 3600 + 1, 1000).unwrap();

    t.cancel_upgrade(admin, uid).unwrap();
    let state = t.upgrade_state(uid).unwrap();
    assert_eq!(state.status, UpgradeStatus::Cancelled);
    assert_eq!(t.cancel_upgrade(admin, uid), Err(upgrade_timelock::Error::NotQueued));
    assert_eq!(
        t.execute_upgrade(admin, uid, u64::MAX),
        Err(upgrade_timelock::Error::NotQueued)
    );
}

#[test]
fn test_eta_too_soon_fails() {
    let admin = Address(1);
    let mut t = ContractUpgradeTimelock::new();
    t.init(admin, 86400).unwrap();
    assert_eq!(
        t.queue_upgrade(admin, Address(2), "H4".to_string(), 500, 1000),
        Err(upgrade_timelock::Error::EtaTooSoon)
    );
    assert_eq!(t.upgrade_state(0).err(), Some(upgrade_timelock::Error::UpgradeNotFound));
}

#[test]
fn lib_test_double_init_fails() {
    let mut t = ContractUpgradeTimelock::new();
    t.init(Address(1), 0).unwrap();
    assert_eq!(t.init(Address(1), 0), Err(upgrade_timelock::Error::AlreadyInitialized));
}

#[test]
fn timelock_ids_and_overflow() {
    let admin = Address(1);
    let mut t = ContractUpgradeTimelock::new();
    t.init(admin, 10).unwrap();
    assert_eq!(t.queue_upgrade(admin, Address(2), "A".to_string(), 20, 10), Ok(0));
    assert_eq!(t.queue_upgrade(admin, Address(2), "B".to_string(), 20, 10), Ok(1));
    assert_eq!(
        t.queue_upgrade(admin, Address(2), "C".to_string(), u64::MAX, u64::MAX),
        Err(upgrade_timelock::Error::Overflow)
    );
    assert_eq!(
        t.queue_upgrade(Address(5), Address(2), "D".to_string(), 20, 10),
        Err(upgrade_timelock::Error::NotAuthorized)
    );
}

struct EscrowSetup {
    vault: EscrowVault,
    token: TokenLedger,
    vault_id: Address,
    admin: Address,
    payer: Address,
    payee: Address,
}

fn escrow_setup() -> EscrowSetup {
    let admin = Address(1);
    let payer = Address(2);
    let payee = Address(3);
    let vault_id = Address(10);
    let mut token = TokenLedger::new();
    token.mint(payer, 1000).unwrap();
    let mut vault = EscrowVault::new(vault_id);
    vault.init(admin, Address(11)).unwrap();
    EscrowSetup { vault, token, vault_id, admin, payer, payee }
}

#[test]
fn test_create_and_release() {
    let mut s = escrow_setup();
    let id = s.vault.create_escrow(&mut s.token, s.payer, s.payee, 500, "HASH1".to_string()).unwrap();

    assert_eq!(s.token.balance(s.vault_id), 500);
    assert_eq!(s.token.balance(s.payer), 500);

    let state = s.vault.escrow_state(id).unwrap();
    assert_eq!(state.status, EscrowStatus::Active);

    s.vault.release_escrow(&mut s.token, s.payer, id).unwrap();
    assert_eq!(s.token.balance(s.payee), 500);

    let state = s.vault.escrow_state(id).unwrap();
    assert_eq!(state.status, EscrowStatus::Released);
}

#[test]
fn test_cancel_returns_funds() {
    let mut s = escrow_setup();
    let id = s.vault.create_escrow(&mut s.token, s.payer, s.payee, 300, "HASH2".to_string()).unwrap();

    s.vault.cancel_escrow(&mut s.token, s.admin, id).unwrap();
    assert_eq!(s.token.balance(s.payer), 1000);

    let state = s.vault.escrow_state(id).unwrap();
    assert_eq!(state.status, EscrowStatus::Cancelled);
}

#[test]
fn test_double_release_fails() {
    let mut s = escrow_setup();
    let id = s.vault.create_escrow(&mut s.token, s.payer, s.payee, 100, "HASH3".to_string()).unwrap();
    s.vault.release_escrow(&mut s.token, s.payer, id).unwrap();
    assert_eq!(
        s.vault.release_escrow(&mut s.token, s.payer, id),
        Err(escrow_vault::Error::NotActive)
    );
    assert_eq!(s.token.balance(s.payee), 100);
}

#[test]
fn escrow_double_init_fails() {
    let mut v = EscrowVault::new(Address(10));
    v.init(Address(1), Address(11)).unwrap();
    assert_eq!(v.init(Address(1), Address(11)), Err(escrow_vault::Error::AlreadyInitialized));
}

#[test]
fn escrow_rejections() {
    let mut s = escrow_setup();
    assert_eq!(
        s.vault.create_escrow(&mut s.token, s.payer, s.payee, 0, "X".to_string()),
        Err(escrow_vault::Error::InvalidAmount)
    );
    assert_eq!(
        s.vault.create_escrow(&mut s.token, s.payer, s.payee, 2000, "X".to_string()),
        Err(escrow_vault::Error::TransferFailed)
    );
    let id = s.vault.create_escrow(&mut s.token, s.payer, s.payee, 100, "X".to_string()).unwrap();
    assert_eq!(
        s.vault.release_escrow(&mut s.token, s.payee, id),
        Err(escrow_vault::Error::NotAuthorized)
    );
    assert_eq!(
        s.vault.cancel_escrow(&mut s.token, s.payer, id),
        Err(escrow_vault::Error::NotAuthorized)
    );
    assert_eq!(
        s.vault.cancel_escrow(&mut s.token, s.admin, 77),
        Err(escrow_vault::Error::EscrowNotFound)
    );
    s.vault.release_escrow(&mut s.token, s.admin, id).unwrap();
    assert_eq!(s.token.balance(s.payee), 100);
}
