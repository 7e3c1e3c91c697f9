use kaspa_consensus_core::header::Header;
use kaspa_cpu_miner::work::{Candidate, Work};
use kaspa_cpu_miner::worker::{
    AfterFound, CheckpointVerdict, ScanPause, WorkerScanState, BATCH_SIZE, CHECK_WORK_INTERVAL,
};
use kaspa_rpc_core::{RpcRawBlock, RpcRawHeader};

/// A target of zero: no digest can meet it, so no nonce ever passes.
const IMPOSSIBLE_BITS: u32 = 0;

/// The largest encodable target: roughly half of all digests meet it, so a
/// solution turns up within a handful of evaluations.
const EASY_BITS: u32 = 0x207f_ffff;

fn make_header(bits: u32, timestamp: u64) -> Header {
    Header {
        hash: Default::default(),
        version: 1,
        parents_by_level: Default::default(),
        hash_merkle_root: Default::default(),
        accepted_id_merkle_root: Default::default(),
        utxo_commitment: Default::default(),
        timestamp,
        bits,
        nonce: 0,
        daa_score: 0,
        blue_work: 0u64.into(),
        blue_score: 0,
        pruning_point: Default::default(),
    }
}

fn make_raw(bits: u32, timestamp: u64) -> RpcRawBlock {
    RpcRawBlock {
        header: RpcRawHeader {
            version: 1,
            parents_by_level: vec![],
            hash_merkle_root: Default::default(),
            accepted_id_merkle_root: Default::default(),
            utxo_commitment: Default::default(),
            timestamp,
            bits,
            // a sentinel: candidates must replace this with the winning nonce
            nonce: 12345,
            daa_score: 0,
            blue_work: 0u64.into(),
            blue_score: 0,
            pruning_point: Default::default(),
        },
        transactions: vec![],
    }
}

fn make_work(id: u64, bits: u32, timestamp: u64) -> Work {
    Work::new(id, &make_header(bits, timestamp), make_raw(bits, timestamp))
}

/// Scan until a solution is found, answering checkpoints with "nothing new".
/// Returns the candidate and the total hash count handed out for flushing.
fn scan_until_found(st: &mut WorkerScanState, work: &Work, max_pauses: u32) -> (Candidate, u64) {
    let mut flushed = 0u64;
    for _ in 0..max_pauses {
        let pause = st.scan(work);
        flushed += pause.flush;
        if let Some(c) = pause.found {
            return (c, flushed);
        }
        if pause.checkpoint {
            match st.checkpoint_result(false, 1, 1) {
                CheckpointVerdict::Continue => {}
                _ => panic!("nothing newer and no shutdown: scanning should continue"),
            }
        }
    }
    panic!("no solution within the evaluation budget");
}

#[test]
fn impossible_target_walks_the_progression_exactly() {
    let work = make_work(0, IMPOSSIBLE_BITS, 1234);
    let mut st = WorkerScanState::new(1, 4, false);
    let mut flushed = 0u64;
    for round in 1..=4u64 {
        let pause = st.scan(&work);
        assert!(pause.found.is_none());
        assert!(pause.checkpoint);
        assert!(!pause.throttle);
        assert_eq!(pause.flush, 0);
        flushed += pause.flush;
        // after k evaluations the next nonce is index + k * count
        assert_eq!(st.nonce, 1 + 4 * round * CHECK_WORK_INTERVAL);
        assert_eq!(st.local_hashes, round * CHECK_WORK_INTERVAL);
        assert!(matches!(st.checkpoint_result(false, 0, 0), CheckpointVerdict::Continue));
    }
    // the fifth checkpoint crosses the batch size: the batch is flushed whole
    let pause = st.scan(&work);
    assert!(pause.checkpoint);
    assert_eq!(pause.flush, BATCH_SIZE);
    flushed += pause.flush;
    assert_eq!(st.local_hashes, 0);
    assert_eq!(st.nonce, 1 + 4 * 5 * CHECK_WORK_INTERVAL);
    // every evaluation is accounted for
    assert_eq!(flushed + st.local_hashes, 5 * CHECK_WORK_INTERVAL);
}

#[test]
fn shutdown_at_checkpoint_flushes_everything() {
    let work = make_work(0, IMPOSSIBLE_BITS, 1);
    let mut st = WorkerScanState::new(0, 2, false);
    let pause = st.scan(&work);
    assert!(pause.checkpoint);
    assert_eq!(st.local_hashes, CHECK_WORK_INTERVAL);
    match st.checkpoint_result(true, 0, 0) {
        CheckpointVerdict::Exit { flush } => assert_eq!(flush, CHECK_WORK_INTERVAL),
        _ => panic!("shutdown must exit"),
    }
    assert_eq!(st.local_hashes, 0);
}

#[test]
fn newer_version_at_checkpoint_refetches() {
    let work = make_work(0, IMPOSSIBLE_BITS, 1);
    let mut st = WorkerScanState::new(0, 2, false);
    let pause = st.scan(&work);
    assert!(pause.checkpoint);
    match st.checkpoint_result(false, 5, 0) {
        CheckpointVerdict::Refetch { flush } => assert_eq!(flush, CHECK_WORK_INTERVAL),
        _ => panic!("a newer version must send the worker back for work"),
    }
}

#[test]
fn throttled_worker_pauses_every_128_hashes() {
    let work = make_work(0, IMPOSSIBLE_BITS, 9);
    let mut st = WorkerScanState::new(0, 1, true);
    let pause = st.scan(&work);
    assert!(pause.throttle);
    assert!(!pause.checkpoint);
    assert!(pause.found.is_none());
    assert_eq!(st.since_check, 128);
    let pause = st.scan(&work);
    assert!(!pause.throttle);
    assert!(pause.checkpoint);
    assert_eq!(st.since_check, CHECK_WORK_INTERVAL);
}

#[test]
fn begin_work_restarts_cadence_and_flushes() {
    let work = make_work(0, IMPOSSIBLE_BITS, 2);
    let mut st = WorkerScanState::new(0, 3, false);
    let pause = st.scan(&work);
    assert!(pause.checkpoint);
    let flush = st.begin_work();
    assert_eq!(flush, CHECK_WORK_INTERVAL);
    assert_eq!(st.local_hashes, 0);
    assert_eq!(st.since_check, 0);
    // the nonce is not reset: the worker keeps walking its own progression
    assert_eq!(st.nonce, 3 * CHECK_WORK_INTERVAL);
}

#[test]
fn found_solution_carries_its_nonce_into_the_template() {
    let work = make_work(0, EASY_BITS, 777);
    let mut st = WorkerScanState::new(0, 1, false);
    let (c, flushed) = scan_until_found(&mut st, &work, 50);
    // the candidate is the raw template with exactly the nonce replaced
    assert_eq!(c.raw.header.nonce, c.nonce);
    assert_eq!(c.raw.header.bits, EASY_BITS);
    assert_eq!(c.raw.header.timestamp, 777);
    assert_eq!(c.raw.transactions.len(), 0);
    // with one worker of stride 1, the found nonce is the last one evaluated
    assert_eq!(c.nonce + 1, st.nonce);
    // a found solution flushes everything: no hash is unaccounted for
    assert_eq!(st.local_hashes, 0);
    assert_eq!(flushed, st.nonce);
}

#[test]
fn found_nonces_respect_the_worker_partition() {
    let work = make_work(0, EASY_BITS, 4242);
    let mut found = Vec::new();
    for index in 0..4usize {
        let mut st = WorkerScanState::new(index, 4, false);
        let (c, _) = scan_until_found(&mut st, &work, 50);
        assert_eq!(c.nonce % 4, index as u64);
        found.push(c.nonce);
    }
    for i in 0..found.len() {
        for j in 0..i {
            assert_ne!(found[i], found[j]);
        }
    }
}

#[test]
fn evaluation_is_deterministic_per_header() {
    let first = make_work(0, EASY_BITS, 31337);
    let second = make_work(9, EASY_BITS, 31337);
    let mut st1 = WorkerScanState::new(0, 1, false);
    let mut st2 = WorkerScanState::new(0, 1, false);
    let (c1, _) = scan_until_found(&mut st1, &first, 50);
    let (c2, _) = scan_until_found(&mut st2, &second, 50);
    assert_eq!(c1.nonce, c2.nonce);
}

#[test]
fn after_found_same_version_keeps_scanning() {
    let mut st = WorkerScanState::new(0, 1, false);
    match st.found_result(Some(3), 3) {
        AfterFound::Continue { throttle } => assert!(!throttle),
        AfterFound::Switch => panic!("version unchanged: keep scanning"),
    }
    assert_eq!(st.since_check, 0);
}

#[test]
fn after_found_newer_version_switches() {
    let mut st = WorkerScanState::new(0, 1, false);
    assert!(matches!(st.found_result(Some(4), 3), AfterFound::Switch));
}

#[test]
fn after_found_busy_register_keeps_scanning() {
    let mut st = WorkerScanState::new(0, 1, true);
    match st.found_result(None, 3) {
        AfterFound::Continue { throttle } => assert!(throttle),
        AfterFound::Switch => panic!("an unreadable register is not newer work"),
    }
}

#[test]
fn duplicate_shares_the_work() {
    let work = make_work(5, EASY_BITS, 11);
    let dup = work.duplicate();
    assert_eq!(dup.id, 5);
    assert_eq!(dup.raw.header.bits, work.raw.header.bits);
    assert_eq!(dup.raw.header.timestamp, work.raw.header.timestamp);
}

#[test]
fn drain_hands_out_what_is_held() {
    let work = make_work(0, IMPOSSIBLE_BITS, 3);
    let mut st = WorkerScanState::new(0, 1, false);
    let pause: ScanPause = st.scan(&work);
    assert!(pause.checkpoint);
    let held = st.local_hashes;
    assert_eq!(st.drain(), held);
    assert_eq!(st.local_hashes, 0);
    assert_eq!(st.drain(), 0);
}
