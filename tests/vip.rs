use stellarcade::token::TokenLedger;
use stellarcade::vip_subscription::{Error, VipSubscription};
use stellarcade::Address;

const ADMIN: Address = Address(1);
const TREASURY: Address = Address(2);

fn hash(b: u8) -> [u8; 32] {
    [b; 32]
}

fn setup() -> (VipSubscription, TokenLedger) {
    let mut v = VipSubscription::new();
    v.init(ADMIN, TREASURY).unwrap();
    (v, TokenLedger::new())
}

fn funded(token: &mut TokenLedger, id: u64, amount: i128) -> Address {
    let user = Address(id);
    token.mint(user, amount).unwrap();
    user
}

#[test]
fn lib_test_init_rejects_reinit() {
    let (mut v, _) = setup();
    let result = v.init(ADMIN, TREASURY);
    assert!(result.is_err());
    assert_eq!(result, Err(Error::AlreadyInitialized));
}

#[test]
fn test_uninit_calls_rejected() {
    let mut v = VipSubscription::new();
    assert_eq!(v.define_plan(ADMIN, 1, 100, 86400, hash(1)), Err(Error::NotInitialized));
    let mut token = TokenLedger::new();
    assert_eq!(v.subscribe(&mut token, Address(5), 1, 0), Err(Error::NotInitialized));
}

#[test]
fn test_define_plan_success() {
    let (mut v, _) = setup();
    v.define_plan(ADMIN, 1, 1000, 86400, hash(1)).unwrap();
}

#[test]
fn test_define_plan_duplicate_rejected() {
    let (mut v, _) = setup();
    v.define_plan(ADMIN, 1, 1000, 86400, hash(2)).unwrap();
    assert_eq!(v.define_plan(ADMIN, 1, 1000, 86400, hash(2)), Err(Error::PlanAlreadyExists));
}

#[test]
fn test_define_plan_zero_price_rejected() {
    let (mut v, _) = setup();
    assert_eq!(v.define_plan(ADMIN, 1, 0, 86400, hash(3)), Err(Error::InvalidInput));
}

#[test]
fn test_define_plan_negative_price_rejected() {
    let (mut v, _) = setup();
    assert_eq!(v.define_plan(ADMIN, 1, -1, 86400, hash(4)), Err(Error::InvalidInput));
}

#[test]
fn test_define_plan_zero_duration_rejected() {
    let (mut v, _) = setup();
    assert_eq!(v.define_plan(ADMIN, 1, 1000, 0, hash(5)), Err(Error::InvalidInput));
}

#[test]
fn test_define_plan_non_admin_rejected() {
    let (mut v, _) = setup();
    assert_eq!(v.define_plan(Address(9), 1, 1000, 86400, hash(6)), Err(Error::NotAuthorized));
}

#[test]
fn test_subscribe_success() {
    let (mut v, mut token) = setup();
    v.define_plan(ADMIN, 1, 500, 86400, hash(7)).unwrap();
    let user = funded(&mut token, 10, 500);
    v.subscribe(&mut token, user, 1, 1_000_000).unwrap();
    let status = v.status_of(user, 1_000_000);
    assert!(status.has_subscription);
    assert_eq!(status.plan_id, 1);
    assert_eq!(status.expires_at, 1_000_000 + 86_400);
    assert!(status.is_active);
    assert_eq!(token.balance(TREASURY), 500);
}

#[test]
fn test_subscribe_unknown_plan_rejected() {
    let (mut v, mut token) = setup();
    assert_eq!(v.subscribe(&mut token, Address(10), 999, 0), Err(Error::PlanNotFound));
}

#[test]
fn test_subscribe_duplicate_active_rejected() {
    let (mut v, mut token) = setup();
    v.define_plan(ADMIN, 1, 100, 86400, hash(8)).unwrap();
    let user = funded(&mut token, 10, 1000);
    v.subscribe(&mut token, user, 1, 1_000_000).unwrap();
    assert_eq!(v.subscribe(&mut token, user, 1, 1_000_000), Err(Error::AlreadySubscribed));
    assert_eq!(token.balance(user), 900);
}

#[test]
fn test_subscribe_after_expiry_succeeds() {
    let (mut v, mut token) = setup();
    let duration: u64 = 86_400;
    v.define_plan(ADMIN, 1, 100, duration, hash(9)).unwrap();
    let user = funded(&mut token, 10, 1000);
    v.subscribe(&mut token, user, 1, 1_000_000).unwrap();
    let later = 1_000_000 + duration + 1;
    v.subscribe(&mut token, user, 1, later).unwrap();
    let status = v.status_of(user, later);
    assert!(status.is_active);
    assert_eq!(status.expires_at, 1_000_000 + duration + 1 + duration);
}

#[test]
fn test_renew_active_subscription_stacks() {
    let (mut v, mut token) = setup();
    let duration: u64 = 86_400;
    v.define_plan(ADMIN, 1, 100, duration, hash(10)).unwrap();
    let user = funded(&mut token, 10, 1000);
    v.subscribe(&mut token, user, 1, 1_000_000).unwrap();
    v.renew(&mut token, user, 1, 1_000_000 + 1000).unwrap();
    let status = v.status_of(user, 1_000_000 + 1000);
    assert_eq!(status.expires_at, 1_000_000 + duration + duration);
    assert!(status.is_active);
}

#[test]
fn test_renew_expired_subscription_reactivates() {
    let (mut v, mut token) = setup();
    let duration: u64 = 86_400;
    v.define_plan(ADMIN, 1, 100, duration, hash(11)).unwrap();
    let user = funded(&mut token, 10, 1000);
    v.subscribe(&mut token, user, 1, 1_000_000).unwrap();
    let renew_at = 1_000_000 + duration + 500;
    v.renew(&mut token, user, 1, renew_at).unwrap();
    let status = v.status_of(user, renew_at);
    assert_eq!(status.expires_at, renew_at + duration);
    assert!(status.is_active);
}

#[test]
fn test_renew_no_subscription_rejected() {
    let (mut v, mut token) = setup();
    v.define_plan(ADMIN, 1, 100, 86400, hash(12)).unwrap();
    assert_eq!(v.renew(&mut token, Address(10), 1, 0), Err(Error::PlanNotFound));
}

#[test]
fn test_renew_charges_user() {
    let (mut v, mut token) = setup();
    v.define_plan(ADMIN, 1, 300, 86400, hash(13)).unwrap();
    let user = funded(&mut token, 10, 1000);
    v.subscribe(&mut token, user, 1, 1_000_000).unwrap();
    v.renew(&mut token, user, 1, 1_000_000).unwrap();
    assert_eq!(token.balance(TREASURY), 600);
    assert_eq!(token.balance(user), 400);
}

#[test]
fn test_status_of_no_subscription() {
    let (v, _) = setup();
    let status = v.status_of(Address(10), 0);
    assert!(!status.has_subscription);
    assert_eq!(status.plan_id, 0);
    assert_eq!(status.expires_at, 0);
    assert!(!status.is_active);
}

#[test]
fn test_status_of_expired() {
    let (mut v, mut token) = setup();
    let duration: u64 = 86_400;
    v.define_plan(ADMIN, 1, 100, duration, hash(14)).unwrap();
    let user = funded(&mut token, 10, 500);
    v.subscribe(&mut token, user, 1, 1_000_000).unwrap();
    let status = v.status_of(user, 1_000_000 + duration + 1);
    assert!(status.has_subscription);
    assert!(!status.is_active);
}

#[test]
fn test_full_lifecycle() {
    let (mut v, mut token) = setup();
    let duration: u64 = 30 * 24 * 3600;
    v.define_plan(ADMIN, 1, 500, duration, hash(20)).unwrap();
    v.define_plan(ADMIN, 2, 1500, duration, hash(21)).unwrap();
    let user = funded(&mut token, 10, 10_000);
    let t0 = 1_000_000;
    v.subscribe(&mut token, user, 1, t0).unwrap();
    let status = v.status_of(user, t0);
    assert_eq!(status.plan_id, 1);
    assert!(status.is_active);
    v.renew(&mut token, user, 2, t0).unwrap();
    let status2 = v.status_of(user, t0);
    assert_eq!(status2.plan_id, 2);
    assert_eq!(status2.expires_at, t0 + duration + duration);
    assert!(status2.is_active);
    assert_eq!(token.balance(TREASURY), 500 + 1500);
    let t1 = status2.expires_at + 1;
    let status3 = v.status_of(user, t1);
    assert!(!status3.is_active);
    v.subscribe(&mut token, user, 1, t1).unwrap();
    let status4 = v.status_of(user, t1);
    assert!(status4.is_active);
    assert_eq!(status4.plan_id, 1);
}

#[test]
fn unpaid_subscription_is_refused() {
    let (mut v, mut token) = setup();
    v.define_plan(ADMIN, 1, 500, 100, hash(1)).unwrap();
    let user = funded(&mut token, 10, 499);
    assert_eq!(v.subscribe(&mut token, user, 1, 0), Err(Error::TransferFailed));
    assert!(!v.status_of(user, 0).has_subscription);
    assert_eq!(v.subscribe(&mut token, user, 1, u64::MAX), Err(Error::Overflow));
}
