use stellarcade::health_registry::{ContractHealthRegistry, Error, HealthPolicy, HealthStatus};
use stellarcade::Address;

fn setup() -> (ContractHealthRegistry, Address, Address) {
    let admin = Address(1);
    let monitored = Address(2);
    let mut r = ContractHealthRegistry::new();
    r.init(admin).unwrap();
    (r, admin, monitored)
}

#[test]
fn test_report_and_query_health() {
    let (mut r, admin, monitored) = setup();
    r.report_health(admin, monitored, HealthStatus::Healthy, "OK1".to_string(), 100).unwrap();
    let report = r.health_of(monitored).unwrap();
    assert_eq!(report.status, HealthStatus::Healthy);
    assert_eq!(report.contract_id, monitored);
    assert_eq!(report.details_hash, "OK1");
    assert_eq!(report.timestamp, 100);
}

#[test]
fn test_history_accumulates() {
    let (mut r, admin, monitored) = setup();
    r.report_health(admin, monitored, HealthStatus::Healthy, "H1".to_string(), 1).unwrap();
    r.report_health(admin, monitored, HealthStatus::Degraded, "H2".to_string(), 2).unwrap();
    r.report_health(admin, monitored, HealthStatus::Critical, "H3".to_string(), 3).unwrap();
    let hist = r.history(monitored);
    assert_eq!(hist.len(), 3);
    assert_eq!(hist[2].status, HealthStatus::Critical);
}

#[test]
fn test_history_trimmed_by_policy() {
    let (mut r, admin, monitored) = setup();
    let policy = HealthPolicy { contract_id: monitored, policy_type: "strict".to_string(), max_history: 2 };
    r.set_health_policy(admin, monitored, policy).unwrap();
    r.report_health(admin, monitored, HealthStatus::Healthy, "A".to_string(), 1).unwrap();
    r.report_health(admin, monitored, HealthStatus::Degraded, "B".to_string(), 2).unwrap();
    r.report_health(admin, monitored, HealthStatus::Critical, "C".to_string(), 3).unwrap();
    let hist = r.history(monitored);
    assert_eq!(hist.len(), 2);
    assert_eq!(hist[0].status, HealthStatus::Degraded);
    assert_eq!(hist[1].status, HealthStatus::Critical);
}

#[test]
fn default_history_keeps_ten() {
    let (mut r, admin, monitored) = setup();
    for t in 0..12u64 {
        r.report_health(admin, monitored, HealthStatus::Unknown, "x".to_string(), t).unwrap();
    }
    let hist = r.history(monitored);
    assert_eq!(hist.len(), 10);
    assert_eq!(hist[0].timestamp, 2);
    assert_eq!(r.health_of(monitored).unwrap().timestamp, 11);
}

#[test]
fn test_unauthorized_reporter_fails() {
    let (mut r, _admin, monitored) = setup();
    assert_eq!(
        r.report_health(Address(9), monitored, HealthStatus::Healthy, "X".to_string(), 1),
        Err(Error::NotAuthorized)
    );
    assert_eq!(r.health_of(monitored).err(), Some(Error::NoHealthData));
}

#[test]
fn health_double_init_fails() {
    let (mut r, admin, monitored) = setup();
    assert_eq!(r.init(admin), Err(Error::AlreadyInitialized));
    let policy = HealthPolicy { contract_id: monitored, policy_type: "p".to_string(), max_history: 0 };
    assert_eq!(r.set_health_policy(admin, monitored, policy), Err(Error::InvalidMaxHistory));
}
