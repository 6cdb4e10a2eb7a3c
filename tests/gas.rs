use stellarcade::gas_analysis::{recommend_for_profile, Error, GasOptimizationAnalysis, MethodProfile};
use stellarcade::Address;

#[test]
fn recommends_split_for_high_cpu_methods() {
    let profile = MethodProfile {
        calls: 5,
        total_cpu: 300_000,
        total_read_bytes: 10_000,
        total_write_bytes: 10_000,
    };
    let rec = recommend_for_profile("resolve_game".to_string(), &profile).unwrap();
    assert_eq!(rec.method, "resolve_game");
    assert_eq!(rec.recommendation, "split_method");
    assert_eq!(rec.estimated_savings_bps, 2000);
}

#[test]
fn recommends_write_cache_when_write_dominates() {
    let profile = MethodProfile {
        calls: 10,
        total_cpu: 100_000,
        total_read_bytes: 1_000,
        total_write_bytes: 10_000,
    };
    let rec = recommend_for_profile("settle".to_string(), &profile).unwrap();
    assert_eq!(rec.recommendation, "cache_writes");
    assert_eq!(rec.estimated_savings_bps, 1500);
}

#[test]
fn no_advice_for_balanced_or_unused_methods() {
    let balanced = MethodProfile { calls: 10, total_cpu: 100, total_read_bytes: 100, total_write_bytes: 200 };
    assert!(recommend_for_profile("m".to_string(), &balanced).is_none());
    let unused = MethodProfile { calls: 0, total_cpu: 0, total_read_bytes: 0, total_write_bytes: 0 };
    assert!(recommend_for_profile("m".to_string(), &unused).is_none());
}

#[test]
fn records_samples_and_ranks_hotspots() {
    let admin = Address(1);
    let mut g = GasOptimizationAnalysis::new();
    assert_eq!(g.record_sample(admin, "a".to_string(), 1, 0, 0), Err(Error::NotInitialized));
    g.init(admin).unwrap();
    assert_eq!(g.init(admin), Err(Error::AlreadyInitialized));
    assert_eq!(g.record_sample(Address(2), "a".to_string(), 1, 0, 0), Err(Error::NotAuthorized));
    assert_eq!(g.record_sample(admin, "a".to_string(), 0, 0, 0), Err(Error::InvalidMetric));
    g.record_sample(admin, "a".to_string(), 100_000, 10, 10).unwrap();
    let p = g.record_sample(admin, "a".to_string(), 200_000, 10, 30).unwrap();
    assert_eq!(p.calls, 2);
    assert_eq!(p.total_cpu, 300_000);
    assert_eq!(p.total_write_bytes, 40);
    g.record_sample(admin, "b".to_string(), 10, 5, 100).unwrap();
    g.record_sample(admin, "c".to_string(), 10, 100, 10).unwrap();
    assert_eq!(g.get_method_profile("a".to_string()), p);
    assert_eq!(g.get_method_profile("zz".to_string()).calls, 0);

    let hot = g.get_hotspots(0);
    assert_eq!(hot.len(), 3);
    assert_eq!(hot[0].method, "a");
    assert_eq!(hot[0].avg_cpu, 150_000);
    assert_eq!(hot[0].score, 150_020);
    assert_eq!(hot[1].score, 110);
    assert_eq!(g.get_hotspots(2).len(), 2);

    let recs = g.get_recommendations(0);
    assert_eq!(recs.len(), 2);
    assert_eq!(recs[0].recommendation, "split_method");
    assert_eq!(recs[1].method, "b");
    assert_eq!(recs[1].recommendation, "cache_writes");
}
