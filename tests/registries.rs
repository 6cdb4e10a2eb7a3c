use stellarcade::call_guard::{self, CrossContractCallGuard};
use stellarcade::governance_token::{self, GovernanceToken, TokenConfig};
use stellarcade::penalty_slashing::{self, PenaltyRule, PenaltySlashing, PenaltyStatus};
use stellarcade::settlement_queue::{self, SettlementQueue, SettlementStatus};
use stellarcade::token::TokenLedger;
use stellarcade::Address;

fn guard_setup() -> (CrossContractCallGuard, Address) {
    let admin = Address(1);
    let mut g = CrossContractCallGuard::new();
    g.init(admin).unwrap();
    (g, admin)
}

#[test]
fn call_guard_test_init() {
    let (mut g, admin) = guard_setup();
    assert_eq!(g.init(admin), Err(call_guard::Error::AlreadyInitialized));
}

#[test]
fn test_policy_allow_deny() {
    let (mut g, admin) = guard_setup();
    let source = Address(2);
    let target = Address(3);
    let selector = "swap".to_string();

    assert!(!g.policy_state(source, target, selector.clone()));
    g.allow_call(admin, source, target, selector.clone()).unwrap();
    assert!(g.policy_state(source, target, selector.clone()));
    assert!(!g.policy_state(target, source, selector.clone()));
    g.deny_call(admin, source, target, selector.clone()).unwrap();
    assert!(!g.policy_state(source, target, selector));
}

#[test]
fn test_assert_allowed() {
    let (mut g, admin) = guard_setup();
    let source = Address(2);
    let target = Address(3);
    let selector = "transfer".to_string();

    let result = g.assert_allowed(source, target, selector.clone());
    assert!(result.is_err());
    assert_eq!(result, Err(call_guard::Error::CallDenied));
    g.allow_call(admin, source, target, selector.clone()).unwrap();
    g.allow_call(admin, source, target, selector.clone()).unwrap();
    let result = g.assert_allowed(source, target, selector.clone());
    assert!(result.is_ok());
    g.deny_call(admin, source, target, selector.clone()).unwrap();
    assert!(g.assert_allowed(source, target, selector.clone()).is_err());
    assert_eq!(
        g.allow_call(Address(9), source, target, selector),
        Err(call_guard::Error::NotAuthorized)
    );
}

fn gov_config() -> TokenConfig {
    TokenConfig { name: "Governance".to_string(), symbol: "GOV".to_string(), decimals: 18 }
}

#[test]
fn governance_test_init() {
    let mut t = GovernanceToken::new();
    t.init(Address(1), gov_config()).unwrap();
    assert_eq!(t.total_supply(), 0);
    assert_eq!(t.init(Address(1), gov_config()), Err(governance_token::Error::NotAuthorized));
}

#[test]
fn test_mint() {
    let admin = Address(1);
    let user = Address(2);
    let mut t = GovernanceToken::new();
    t.init(admin, gov_config()).unwrap();
    t.mint(admin, user, 1000).unwrap();
    assert_eq!(t.balance_of(user), 1000);
    assert_eq!(t.total_supply(), 1000);
}

#[test]
fn test_burn() {
    let admin = Address(1);
    let user = Address(2);
    let mut t = GovernanceToken::new();
    t.init(admin, gov_config()).unwrap();
    t.mint(admin, user, 1000).unwrap();
    t.burn(admin, user, 400).unwrap();
    assert_eq!(t.balance_of(user), 600);
    assert_eq!(t.total_supply(), 600);
    assert_eq!(t.burn(admin, user, 601), Err(governance_token::Error::InsufficientBalance));
}

#[test]
fn test_transfer() {
    let admin = Address(1);
    let user1 = Address(2);
    let user2 = Address(3);
    let mut t = GovernanceToken::new();
    t.init(admin, gov_config()).unwrap();
    t.mint(admin, user1, 1000).unwrap();
    t.transfer(user1, user2, 300).unwrap();
    assert_eq!(t.balance_of(user1), 700);
    assert_eq!(t.balance_of(user2), 300);
    assert_eq!(t.total_supply(), 1000);
    t.transfer(user1, user1, 100).unwrap();
    assert_eq!(t.balance_of(user1), 700);
    assert_eq!(t.transfer(user1, user2, 0), Err(governance_token::Error::InvalidAmount));
}

#[test]
fn test_unauthorized_mint() {
    let admin = Address(1);
    let mut t = GovernanceToken::new();
    t.init(admin, TokenConfig { name: "G".to_string(), symbol: "G".to_string(), decimals: 0 })
        .unwrap();
    assert_eq!(t.mint(Address(66), Address(2), 1000), Err(governance_token::Error::NotAuthorized));
    assert_eq!(t.total_supply(), 0);
}

fn rule(code: &str, slash_amount: i128, desc: &str) -> PenaltyRule {
    PenaltyRule { code: code.to_string(), slash_amount, description_hash: desc.to_string() }
}

#[test]
fn test_define_and_apply_penalty() {
    let admin = Address(1);
    let offender = Address(2);
    let treasury = Address(3);
    let mut token = TokenLedger::new();
    token.mint(offender, 1000).unwrap();
    let mut p = PenaltySlashing::new();
    p.init(admin, treasury).unwrap();
    p.define_violation(admin, "CHEAT".to_string(), rule("CHEAT", 100, "DESC1")).unwrap();
    let pid = p
        .apply_penalty(&mut token, admin, offender, "CHEAT".to_string(), "CTX1".to_string())
        .unwrap();
    assert_eq!(token.balance(offender), 900);
    assert_eq!(token.balance(treasury), 100);
    let state = p.penalty_state(pid).unwrap();
    assert_eq!(state.status, PenaltyStatus::Applied);
    assert_eq!(state.slash_amount, 100);
}

#[test]
fn test_appeal_penalty() {
    let admin = Address(1);
    let offender = Address(2);
    let treasury = Address(3);
    let mut token = TokenLedger::new();
    token.mint(offender, 500).unwrap();
    let mut p = PenaltySlashing::new();
    p.init(admin, treasury).unwrap();
    p.define_violation(admin, "AFK".to_string(), rule("AFK", 50, "DSAFK")).unwrap();
    let pid = p
        .apply_penalty(&mut token, admin, offender, "AFK".to_string(), "CTX2".to_string())
        .unwrap();
    assert_eq!(p.appeal_penalty(admin, pid), Err(penalty_slashing::Error::NotAuthorized));
    p.appeal_penalty(offender, pid).unwrap();
    let state = p.penalty_state(pid).unwrap();
    assert_eq!(state.status, PenaltyStatus::Appealed);
    assert_eq!(p.appeal_penalty(offender, pid), Err(penalty_slashing::Error::NotApplied));
}

#[test]
fn test_apply_undefined_violation_fails() {
    let admin = Address(1);
    let mut token = TokenLedger::new();
    let mut p = PenaltySlashing::new();
    p.init(admin, Address(3)).unwrap();
    assert_eq!(
        p.apply_penalty(&mut token, admin, Address(2), "BOGUS".to_string(), "C".to_string()),
        Err(penalty_slashing::Error::ViolationNotDefined)
    );
}

#[test]
fn penalty_redefinition_and_limits() {
    let admin = Address(1);
    let offender = Address(2);
    let mut token = TokenLedger::new();
    token.mint(offender, 30).unwrap();
    let mut p = PenaltySlashing::new();
    p.init(admin, Address(3)).unwrap();
    assert_eq!(
        p.define_violation(admin, "X".to_string(), rule("X", -1, "D")),
        Err(penalty_slashing::Error::NegativeSlashAmount)
    );
    p.define_violation(admin, "X".to_string(), rule("X", 50, "D")).unwrap();
    assert_eq!(
        p.apply_penalty(&mut token, admin, offender, "X".to_string(), "C".to_string()),
        Err(penalty_slashing::Error::TransferFailed)
    );
    p.define_violation(admin, "X".to_string(), rule("X", 20, "D")).unwrap();
    assert_eq!(p.apply_penalty(&mut token, admin, offender, "X".to_string(), "C".to_string()), Ok(0));
    assert_eq!(token.balance(offender), 10);
}

fn queue_setup() -> (SettlementQueue, Address) {
    let admin = Address(1);
    let mut q = SettlementQueue::new();
    q.init(admin, Address(2), Address(3)).unwrap();
    (q, admin)
}

#[test]
fn settlement_test_init() {
    let (mut q, admin) = queue_setup();
    assert_eq!(q.init(admin, Address(2), Address(3)), Err(settlement_queue::Error::AlreadyInitialized));
}

#[test]
fn test_enqueue_and_process() {
    let (mut q, admin) = queue_setup();
    let user = Address(7);
    q.enqueue_settlement(admin, "s1".to_string(), user, 1000, "win".to_string()).unwrap();
    let state = q.settlement_state("s1".to_string()).unwrap();
    assert_eq!(state.status, SettlementStatus::Pending);
    assert_eq!(state.amount, 1000);
    assert_eq!(q.process_next(admin, 1), Ok(1));
    let state = q.settlement_state("s1".to_string()).unwrap();
    assert_eq!(state.status, SettlementStatus::Processed);
    assert_eq!(q.process_next(admin, 5), Ok(0));
}

#[test]
fn test_fifo_processing() {
    let (mut q, admin) = queue_setup();
    let user = Address(7);
    q.enqueue_settlement(admin, "s1".to_string(), user, 100, "r1".to_string()).unwrap();
    q.enqueue_settlement(admin, "s2".to_string(), user, 200, "r2".to_string()).unwrap();
    q.process_next(admin, 1).unwrap();
    assert_eq!(q.settlement_state("s1".to_string()).unwrap().status, SettlementStatus::Processed);
    assert_eq!(q.settlement_state("s2".to_string()).unwrap().status, SettlementStatus::Pending);
    q.process_next(admin, 1).unwrap();
    assert_eq!(q.settlement_state("s2".to_string()).unwrap().status, SettlementStatus::Processed);
}

#[test]
fn test_mark_failed() {
    let (mut q, admin) = queue_setup();
    q.enqueue_settlement(admin, "s1".to_string(), Address(7), 500, "fail".to_string()).unwrap();
    q.mark_failed(admin, "s1".to_string(), 404).unwrap();
    let state = q.settlement_state("s1".to_string()).unwrap();
    assert_eq!(state.status, SettlementStatus::Failed);
    assert_eq!(state.error_code, Some(404));
    // a failed settlement is skipped, not processed, when its turn comes
    q.process_next(admin, 1).unwrap();
    assert_eq!(q.settlement_state("s1".to_string()).unwrap().status, SettlementStatus::Failed);
}

#[test]
fn test_unauthorized_enqueue() {
    let (mut q, admin) = queue_setup();
    let stranger = Address(9);
    assert_eq!(
        q.enqueue_settlement(stranger, "s1".to_string(), Address(7), 1, "r".to_string()),
        Err(settlement_queue::Error::NotAuthorized)
    );
    q.enqueue_settlement(admin, "s1".to_string(), Address(7), 1, "r".to_string()).unwrap();
    assert_eq!(
        q.enqueue_settlement(admin, "s1".to_string(), Address(7), 1, "r".to_string()),
        Err(settlement_queue::Error::InvalidState)
    );
    assert_eq!(q.process_next(admin, 0), Err(settlement_queue::Error::InvalidBatchSize));
    q.process_next(admin, 1).unwrap();
    assert_eq!(
        q.mark_failed(admin, "s1".to_string(), 1),
        Err(settlement_queue::Error::InvalidState)
    );
    assert_eq!(
        q.mark_failed(admin, "zz".to_string(), 1),
        Err(settlement_queue::Error::SettlementNotFound)
    );
}
