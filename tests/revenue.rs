use stellarcade::revenue_split::{Error, RecipientWeight, RevenueSplit};
use stellarcade::token::TokenLedger;
use stellarcade::Address;

const ADMIN: Address = Address(1);
const CONTRACT: Address = Address(10);

fn setup() -> (RevenueSplit, TokenLedger) {
    let mut s = RevenueSplit::new(CONTRACT);
    s.init(ADMIN, Address(11)).unwrap();
    (s, TokenLedger::new())
}

#[test]
fn test_configure_deposit_distribute() {
    let (mut s, mut token) = setup();
    let r1 = Address(2);
    let r2 = Address(3);
    let depositor = Address(4);
    token.mint(depositor, 1000).unwrap();
    let recipients = vec![
        RecipientWeight { recipient: r1, weight_bps: 6000 },
        RecipientWeight { recipient: r2, weight_bps: 4000 },
    ];
    s.set_split_config(ADMIN, "gaming".to_string(), recipients).unwrap();
    s.deposit_revenue(&mut token, depositor, "gaming".to_string(), 1000).unwrap();
    assert_eq!(token.balance(CONTRACT), 1000);
    s.distribute(&mut token, ADMIN, "gaming".to_string()).unwrap();
    assert_eq!(token.balance(r1), 600);
    assert_eq!(token.balance(r2), 400);
    assert_eq!(s.recipient_balance("gaming".to_string(), r1), 600);
    assert_eq!(s.recipient_balance("gaming".to_string(), r2), 400);
    assert_eq!(s.distribute(&mut token, ADMIN, "gaming".to_string()), Err(Error::NothingToDistribute));
}

#[test]
fn test_invalid_weight_sum_fails() {
    let (mut s, _) = setup();
    let recipients = vec![RecipientWeight { recipient: Address(2), weight_bps: 5000 }];
    assert_eq!(s.set_split_config(ADMIN, "bad".to_string(), recipients), Err(Error::InvalidWeights));
    let huge = vec![
        RecipientWeight { recipient: Address(2), weight_bps: u32::MAX },
        RecipientWeight { recipient: Address(3), weight_bps: 10_001 },
    ];
    assert_eq!(s.set_split_config(ADMIN, "bad".to_string(), huge), Err(Error::InvalidWeights));
    assert_eq!(s.set_split_config(ADMIN, "bad".to_string(), Vec::new()), Err(Error::NoRecipients));
}

#[test]
fn test_distribute_empty_fails() {
    let (mut s, mut token) = setup();
    let recipients = vec![RecipientWeight { recipient: Address(2), weight_bps: 10_000 }];
    s.set_split_config(ADMIN, "empty".to_string(), recipients).unwrap();
    assert_eq!(s.distribute(&mut token, ADMIN, "empty".to_string()), Err(Error::NothingToDistribute));
    assert_eq!(s.distribute(&mut token, ADMIN, "none".to_string()), Err(Error::ConfigNotFound));
}

#[test]
fn revenue_double_init_fails() {
    let (mut s, mut token) = setup();
    assert_eq!(s.init(ADMIN, Address(11)), Err(Error::AlreadyInitialized));
    assert_eq!(
        s.deposit_revenue(&mut token, Address(4), "none".to_string(), 10),
        Err(Error::ConfigNotFound)
    );
}

#[test]
fn rounding_leftovers_stay_and_credits_accumulate() {
    let (mut s, mut token) = setup();
    let depositor = Address(4);
    token.mint(depositor, 1000).unwrap();
    let recipients = vec![
        RecipientWeight { recipient: Address(2), weight_bps: 3333 },
        RecipientWeight { recipient: Address(3), weight_bps: 6667 },
    ];
    s.set_split_config(ADMIN, "s".to_string(), recipients).unwrap();
    s.deposit_revenue(&mut token, depositor, "s".to_string(), 10).unwrap();
    s.distribute(&mut token, ADMIN, "s".to_string()).unwrap();
    assert_eq!(token.balance(Address(2)), 3);
    assert_eq!(token.balance(Address(3)), 6);
    assert_eq!(token.balance(CONTRACT), 1);
    s.deposit_revenue(&mut token, depositor, "s".to_string(), 100).unwrap();
    s.distribute(&mut token, ADMIN, "s".to_string()).unwrap();
    assert_eq!(s.recipient_balance("s".to_string(), Address(2)), 3 + 33);
    assert_eq!(s.recipient_balance("s".to_string(), Address(3)), 6 + 66);
    assert_eq!(s.distribute(&mut token, Address(9), "s".to_string()), Err(Error::NotAuthorized));
}
