use rcp::observe::Metrics;

#[test]
fn metrics_start_at_zero() {
    let m = Metrics::default();
    assert_eq!(m.calls(), 0);
    assert_eq!(m.errors(), 0);
    assert_eq!(m.latency_us(), 0);
    assert_eq!(m.mean_latency_us(), 0);
}

#[test]
fn record_counts_calls_errors_and_latency() {
    let mut m = Metrics::default();
    m.record(10, false);
    m.record(25, true);
    m.record(1, false);
    assert_eq!(m.calls(), 3);
    assert_eq!(m.errors(), 1);
    assert_eq!(m.latency_us(), 36);
    assert_eq!(m.mean_latency_us(), 12);
}

#[test]
fn counters_wrap_around() {
    let mut m = Metrics {
        total_calls: u64::MAX,
        total_errors: u64::MAX,
        total_latency_us: u64::MAX - 1,
    };
    m.record(3, true);
    assert_eq!(m.calls(), 0);
    assert_eq!(m.errors(), 0);
    assert_eq!(m.latency_us(), 1);
    assert_eq!(m.mean_latency_us(), 0);
}
