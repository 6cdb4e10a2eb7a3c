use stellarcade::monitoring::{
    apply_event, evaluate_health, is_high_error_rate, AlertRaised, ContractMonitoring, Error,
    EventKind, Metrics,
};
use stellarcade::Address;

#[test]
fn marks_error_rate_when_threshold_crossed() {
    assert!(!is_high_error_rate(1, 5));
    assert!(!is_high_error_rate(1, 10));
    assert!(is_high_error_rate(2, 10));
    assert!(is_high_error_rate(3, 10));
}

#[test]
fn applies_event_counts_deterministically() {
    let mut metrics = Metrics::default();
    apply_event(&mut metrics, &EventKind::SettlementSuccess);
    apply_event(&mut metrics, &EventKind::SettlementFailed);
    apply_event(&mut metrics, &EventKind::Error);

    assert_eq!(metrics.total_events, 3);
    assert_eq!(metrics.settlement_success, 1);
    assert_eq!(metrics.settlement_failed, 1);
    assert_eq!(metrics.error_events, 1);
}

#[test]
fn error_rate_saturates_and_needs_sample() {
    assert!(!is_high_error_rate(u64::MAX, 9));
    // the scaled count saturates, so a huge error count reads as a small rate
    assert!(!is_high_error_rate(u64::MAX, u64::MAX));
    assert!(is_high_error_rate(u64::MAX / 100, u64::MAX / 20));
    assert!(!is_high_error_rate(19, 100));
    assert!(is_high_error_rate(20, 100));
}

#[test]
fn counters_saturate() {
    let mut m = Metrics::default();
    m.total_events = u64::MAX;
    apply_event(&mut m, &EventKind::Resumed);
    assert_eq!(m.total_events, u64::MAX);
    assert_eq!(m.paused_events, 0);
}

#[test]
fn ingest_raises_alerts_and_rejects_duplicates() {
    let admin = Address(1);
    let mut c = ContractMonitoring::new();
    assert_eq!(c.set_paused(admin, true).err(), Some(Error::NotInitialized));
    c.init(admin).unwrap();
    assert_eq!(c.init(admin), Err(Error::AlreadyInitialized));
    assert_eq!(c.ingest_event(Address(2), 1, EventKind::Error).err(), Some(Error::NotAuthorized));
    for id in 0..3u64 {
        let out = c.ingest_event(admin, id, EventKind::SettlementFailed).unwrap();
        assert_eq!(out.event.event_id, id);
        if id < 2 {
            assert!(out.alerts.is_empty());
        } else {
            assert_eq!(out.alerts, vec![AlertRaised { alert: 1 }]);
        }
    }
    assert_eq!(c.ingest_event(admin, 1, EventKind::Error).err(), Some(Error::DuplicateEvent));
    c.set_paused(admin, true).unwrap();
    let out = c.ingest_event(admin, 10, EventKind::Paused).unwrap();
    assert_eq!(out.alerts, vec![AlertRaised { alert: 1 }, AlertRaised { alert: 3 }]);
    assert_eq!(out.metrics.total_events, 4);
    assert_eq!(c.get_metrics().paused_events, 1);
    let h = c.get_health();
    assert!(h.paused && h.failed_settlement_alert && !h.high_error_rate);
    assert_eq!(evaluate_health(&c.get_metrics(), true), h);
}
