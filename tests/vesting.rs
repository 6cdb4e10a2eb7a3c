use stellarcade::reward_vesting::{Error, RewardVestingContract};
use stellarcade::token::TokenLedger;
use stellarcade::Address;

const ADMIN: Address = Address(1);
const CONTRACT: Address = Address(10);
const NOW: u64 = 0;

fn setup() -> (RewardVestingContract, TokenLedger) {
    let mut token = TokenLedger::new();
    token.mint(ADMIN, 1_000_000).unwrap();
    let mut c = RewardVestingContract::new(CONTRACT);
    c.init(ADMIN, Address(11)).unwrap();
    (c, token)
}

#[test]
fn vesting_test_init() {
    let (c, _) = setup();
    assert!(c.vesting_state(Address(2)).is_empty());
}

#[test]
fn vesting_double_init_fails() {
    let (mut c, _) = setup();
    assert_eq!(c.init(ADMIN, Address(12)), Err(Error::AlreadyInitialized));
}

#[test]
fn test_create_schedule() {
    let (mut c, mut token) = setup();
    let id = c.create_vesting_schedule(&mut token, ADMIN, Address(2), 10_000, NOW, 0, 1000).unwrap();
    assert_eq!(id, 0);
    assert_eq!(token.balance(CONTRACT), 10_000);
    assert_eq!(token.balance(ADMIN), 990_000);
}

#[test]
fn test_invalid_amount_rejected() {
    let (mut c, mut token) = setup();
    assert_eq!(
        c.create_vesting_schedule(&mut token, ADMIN, Address(2), 0, NOW, 0, 1000),
        Err(Error::InvalidAmount)
    );
}

#[test]
fn test_zero_duration_rejected() {
    let (mut c, mut token) = setup();
    assert_eq!(
        c.create_vesting_schedule(&mut token, ADMIN, Address(2), 100, NOW, 0, 0),
        Err(Error::InvalidDuration)
    );
}

#[test]
fn test_cliff_blocks_claim() {
    let (mut c, mut token) = setup();
    let user = Address(2);
    c.create_vesting_schedule(&mut token, ADMIN, user, 10_000, NOW, 3600, 7200).unwrap();
    assert_eq!(c.claim_vested(&mut token, user, NOW), Err(Error::NothingToClaim));
    assert_eq!(c.claim_vested(&mut token, user, NOW + 3599), Err(Error::NothingToClaim));
    // at the cliff, half of the duration has elapsed
    assert_eq!(c.claim_vested(&mut token, user, NOW + 3600), Ok(5_000));
}

#[test]
fn test_claim_after_full_vest() {
    let (mut c, mut token) = setup();
    let user = Address(2);
    let amount = 50_000i128;
    c.create_vesting_schedule(&mut token, ADMIN, user, amount, NOW, 0, 1000).unwrap();
    let claimed = c.claim_vested(&mut token, user, NOW + 2000).unwrap();
    assert_eq!(claimed, amount);
    assert_eq!(token.balance(user), amount);
    assert_eq!(c.claim_vested(&mut token, user, NOW + 3000), Err(Error::NothingToClaim));
}

#[test]
fn test_partial_claim() {
    let (mut c, mut token) = setup();
    let user = Address(2);
    c.create_vesting_schedule(&mut token, ADMIN, user, 10_000, NOW, 0, 1000).unwrap();
    let claimed = c.claim_vested(&mut token, user, NOW + 500).unwrap();
    assert_eq!(claimed, 5_000);
    assert_eq!(c.claim_vested(&mut token, user, NOW + 750), Ok(2_500));
    assert_eq!(c.vesting_state(user)[0].claimed, 7_500);
}

#[test]
fn vested_amount_rounds_down() {
    let (mut c, mut token) = setup();
    let id = c.create_vesting_schedule(&mut token, ADMIN, Address(2), 10, NOW, 0, 3).unwrap();
    assert_eq!(c.vested_amount(id, NOW + 1), Ok(3));
    assert_eq!(c.vested_amount(id, NOW + 2), Ok(6));
    assert_eq!(c.vested_amount(id, NOW + 3), Ok(10));
    assert_eq!(c.vested_amount(7, NOW), Err(Error::ScheduleNotFound));
}

#[test]
fn vested_amount_of_large_schedule() {
    let mut token = TokenLedger::new();
    token.mint(ADMIN, i128::MAX).unwrap();
    let mut c = RewardVestingContract::new(CONTRACT);
    c.init(ADMIN, Address(11)).unwrap();
    let id = c
        .create_vesting_schedule(&mut token, ADMIN, Address(2), i128::MAX, 0, 0, u64::MAX)
        .unwrap();
    // floor((2^127 - 1) * (2^63) / (2^64 - 1)) computed exactly
    let half = u64::MAX / 2 + 1;
    let expected = ((i128::MAX as u128 / u64::MAX as u128) * half as u128
        + (i128::MAX as u128 % u64::MAX as u128) * half as u128 / u64::MAX as u128)
        as i128;
    assert_eq!(c.vested_amount(id, half), Ok(expected));
}

#[test]
fn test_revoke_schedule() {
    let (mut c, mut token) = setup();
    let id = c.create_vesting_schedule(&mut token, ADMIN, Address(2), 20_000, NOW, 0, 1000).unwrap();
    let unvested = c.revoke_schedule(&mut token, ADMIN, id, NOW).unwrap();
    assert_eq!(unvested, 20_000);
    assert_eq!(token.balance(ADMIN), 1_000_000);
}

#[test]
fn revoke_returns_only_unvested() {
    let (mut c, mut token) = setup();
    let user = Address(2);
    let id = c.create_vesting_schedule(&mut token, ADMIN, user, 20_000, NOW, 0, 1000).unwrap();
    assert_eq!(c.revoke_schedule(&mut token, ADMIN, id, NOW + 250), Ok(15_000));
    assert_eq!(c.claim_vested(&mut token, user, NOW + 2000), Err(Error::NothingToClaim));
    assert_eq!(c.revoke_schedule(&mut token, user, id, NOW), Err(Error::NotAuthorized));
}

#[test]
fn test_revoke_twice_fails() {
    let (mut c, mut token) = setup();
    let id = c.create_vesting_schedule(&mut token, ADMIN, Address(2), 1000, NOW, 0, 500).unwrap();
    c.revoke_schedule(&mut token, ADMIN, id, NOW).unwrap();
    assert_eq!(c.revoke_schedule(&mut token, ADMIN, id, NOW), Err(Error::AlreadyRevoked));
}

#[test]
fn test_vesting_state_returns_schedules() {
    let (mut c, mut token) = setup();
    let user = Address(2);
    c.create_vesting_schedule(&mut token, ADMIN, user, 500, NOW, 0, 100).unwrap();
    c.create_vesting_schedule(&mut token, ADMIN, Address(3), 900, NOW, 0, 100).unwrap();
    c.create_vesting_schedule(&mut token, ADMIN, user, 700, NOW, 50, 200).unwrap();
    let state = c.vesting_state(user);
    assert_eq!(state.len(), 2);
    assert_eq!(state[1].schedule_id, 2);
    // one claim covers both of the user's schedules
    assert_eq!(c.claim_vested(&mut token, user, NOW + 100), Ok(500 + 350));
}

#[test]
fn test_ids_increment() {
    let (mut c, mut token) = setup();
    let user = Address(2);
    let id0 = c.create_vesting_schedule(&mut token, ADMIN, user, 100, NOW, 0, 10).unwrap();
    let id1 = c.create_vesting_schedule(&mut token, ADMIN, user, 200, NOW, 0, 10).unwrap();
    assert_eq!(id0, 0);
    assert_eq!(id1, 1);
}
