use kaspa_cpu_miner::config::CpuMinerConfig;
use kaspa_cpu_miner::engine::{next_connect_backoff_millis, start_cpu_miner};
use kaspa_cpu_miner::metrics::CpuMinerMetrics;
use kaspa_cpu_miner::pipeline::{record_submission, SubmitOutcome};

#[test]
fn fresh_metrics_are_zero() {
    let m = CpuMinerMetrics::new();
    assert_eq!(m.hashes_tried, 0);
    assert_eq!(m.blocks_submitted, 0);
    assert_eq!(m.blocks_accepted, 0);
    let d = CpuMinerMetrics::default();
    assert_eq!(d, m);
}

#[test]
fn record_hashes_adds_exactly() {
    let mut m = CpuMinerMetrics::new();
    m.record_hashes(1000);
    m.record_hashes(234);
    assert_eq!(m.hashes_tried, 1234);
    assert_eq!(m.blocks_submitted, 0);
}

#[test]
fn hash_counter_saturates_at_the_top() {
    let mut m = CpuMinerMetrics::new();
    m.record_hashes(u64::MAX);
    m.record_hashes(5);
    assert_eq!(m.hashes_tried, u64::MAX);
}

#[test]
fn snapshots_taken_in_order_never_decrease() {
    let mut m = CpuMinerMetrics::new();
    let mut snaps = Vec::new();
    snaps.push(m.snapshot());
    m.record_hashes(10);
    snaps.push(m.snapshot());
    record_submission(&mut m, SubmitOutcome::Accepted);
    snaps.push(m.snapshot());
    record_submission(&mut m, SubmitOutcome::Rejected);
    snaps.push(m.snapshot());
    record_submission(&mut m, SubmitOutcome::TransportFailed);
    snaps.push(m.snapshot());
    m.record_hashes(3);
    snaps.push(m.snapshot());
    for i in 0..snaps.len() {
        for j in i..snaps.len() {
            assert!(snaps[i].hashes_tried <= snaps[j].hashes_tried);
            assert!(snaps[i].blocks_submitted <= snaps[j].blocks_submitted);
            assert!(snaps[i].blocks_accepted <= snaps[j].blocks_accepted);
        }
    }
}

#[test]
fn accepted_counts_submitted_and_accepted() {
    let mut m = CpuMinerMetrics::new();
    record_submission(&mut m, SubmitOutcome::Accepted);
    assert_eq!(m.blocks_submitted, 1);
    assert_eq!(m.blocks_accepted, 1);
}

#[test]
fn rejected_counts_submitted_only() {
    let mut m = CpuMinerMetrics::new();
    record_submission(&mut m, SubmitOutcome::Rejected);
    assert_eq!(m.blocks_submitted, 1);
    assert_eq!(m.blocks_accepted, 0);
}

#[test]
fn transport_failure_counts_nothing() {
    let mut m = CpuMinerMetrics::new();
    record_submission(&mut m, SubmitOutcome::TransportFailed);
    assert_eq!(m.blocks_submitted, 0);
    assert_eq!(m.blocks_accepted, 0);
}

#[test]
fn restart_gets_fresh_metrics() {
    let config = CpuMinerConfig {
        mining_address: "kaspa:qq".to_string(),
        threads: 2,
        throttle_millis: Some(5),
        template_poll_millis: 50,
    };
    let first = start_cpu_miner(&config).expect("start");
    let mut m = first.metrics;
    m.record_hashes(999);
    record_submission(&mut m, SubmitOutcome::Accepted);
    assert!(m.hashes_tried > 0);
    // stop, then start again: the new engine's counters owe nothing to the old
    let second = start_cpu_miner(&config).expect("restart");
    assert_eq!(second.metrics.hashes_tried, 0);
    assert_eq!(second.metrics.blocks_submitted, 0);
    assert_eq!(second.metrics.blocks_accepted, 0);
    assert_eq!(second.threads, 2);
    assert!(second.throttled);
}

#[test]
fn start_rejects_blank_address() {
    let config = CpuMinerConfig {
        mining_address: "   ".to_string(),
        threads: 2,
        throttle_millis: None,
        template_poll_millis: 50,
    };
    assert!(start_cpu_miner(&config).is_err());
}

#[test]
fn connect_backoff_doubles_and_caps() {
    let mut b = 250u64;
    let mut seen = Vec::new();
    for _ in 0..6 {
        b = next_connect_backoff_millis(b);
        seen.push(b);
    }
    assert_eq!(seen, vec![500, 1000, 2000, 4000, 5000, 5000]);
}
