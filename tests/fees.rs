use stellarcade::fee_policy::{calculate_fee, DynamicFeePolicy, Error, FeeContext, FeeRuleConfig, FeeTier};
use stellarcade::Address;

fn setup() -> (DynamicFeePolicy, Address) {
    let admin = Address(1);
    let mut p = DynamicFeePolicy::new();
    p.init(admin).unwrap();
    (p, admin)
}

fn context(multiplier_bps: u32) -> FeeContext {
    FeeContext { multiplier_bps, additional_data: Vec::new() }
}

#[test]
fn test_compute_base_fee() {
    let (mut p, admin) = setup();
    p.set_fee_rule(admin, "game1".to_string(), FeeRuleConfig { base_fee_bps: 500, tiers: None, enabled: true })
        .unwrap();
    let fee = p.compute_fee("game1".to_string(), 1000, context(10_000)).unwrap();
    assert_eq!(fee, 50);
}

#[test]
fn test_compute_tiered_fee() {
    let (mut p, admin) = setup();
    let tiers = vec![FeeTier { threshold: 1000, fee_bps: 300 }, FeeTier { threshold: 5000, fee_bps: 100 }];
    p.set_fee_rule(
        admin,
        "game1".to_string(),
        FeeRuleConfig { base_fee_bps: 500, tiers: Some(tiers), enabled: true },
    )
    .unwrap();
    assert_eq!(p.compute_fee("game1".to_string(), 500, context(10_000)), Ok(25));
    assert_eq!(p.compute_fee("game1".to_string(), 2000, context(10_000)), Ok(60));
    assert_eq!(p.compute_fee("game1".to_string(), 10000, context(10_000)), Ok(100));
}

#[test]
fn test_compute_context_multiplier() {
    let (mut p, admin) = setup();
    p.set_fee_rule(admin, "game1".to_string(), FeeRuleConfig { base_fee_bps: 1000, tiers: None, enabled: true })
        .unwrap();
    let fee = p.compute_fee("game1".to_string(), 1000, context(5000)).unwrap();
    assert_eq!(fee, 50);
}

#[test]
fn test_disabled_rule() {
    let (mut p, admin) = setup();
    p.set_fee_rule(admin, "game1".to_string(), FeeRuleConfig { base_fee_bps: 500, tiers: None, enabled: false })
        .unwrap();
    let result = p.compute_fee("game1".to_string(), 1000, context(10_000));
    assert_eq!(result, Err(Error::RuleDisabled));
    p.enable_rule(admin, "game1".to_string()).unwrap();
    assert_eq!(p.compute_fee("game1".to_string(), 1000, context(10_000)), Ok(50));
    p.disable_rule(admin, "game1".to_string()).unwrap();
    assert!(!p.fee_rule_state("game1".to_string()).unwrap().enabled);
}

#[test]
fn fee_rule_rejections() {
    let (mut p, admin) = setup();
    assert_eq!(
        p.set_fee_rule(admin, "g".to_string(), FeeRuleConfig { base_fee_bps: 10_001, tiers: None, enabled: true }),
        Err(Error::InvalidFeeConfig)
    );
    let bad = vec![FeeTier { threshold: 0, fee_bps: 20_000 }];
    assert_eq!(
        p.set_fee_rule(admin, "g".to_string(), FeeRuleConfig { base_fee_bps: 1, tiers: Some(bad), enabled: true }),
        Err(Error::InvalidFeeConfig)
    );
    assert_eq!(
        p.set_fee_rule(Address(9), "g".to_string(), FeeRuleConfig { base_fee_bps: 1, tiers: None, enabled: true }),
        Err(Error::NotAuthorized)
    );
    assert_eq!(p.compute_fee("g".to_string(), 1, context(10_000)), Err(Error::RuleNotFound));
    assert_eq!(p.enable_rule(admin, "g".to_string()), Err(Error::RuleNotFound));
    p.set_fee_rule(admin, "g".to_string(), FeeRuleConfig { base_fee_bps: 10_000, tiers: None, enabled: true })
        .unwrap();
    assert_eq!(p.compute_fee("g".to_string(), 1, context(u32::MAX)), Err(Error::Overflow));
}

#[test]
fn calculate_fee_rounds_toward_zero() {
    assert_eq!(calculate_fee(1999, 5), Some(0));
    assert_eq!(calculate_fee(20_000, 5), Some(10));
    assert_eq!(calculate_fee(-19_999, 1), Some(-1));
    assert_eq!(calculate_fee(i128::MAX, 2), None);
}
