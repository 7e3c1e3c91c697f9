use kaspa_cpu_miner::feed::{FetchCycle, FetchDecision, TemplateFeed};

#[test]
fn ids_start_at_zero_and_increase() {
    let mut feed = TemplateFeed::new();
    let mut cycle = FetchCycle::new();
    let first = cycle.on_success(&mut feed);
    assert_eq!(first, 0);
    let mut next_cycle = FetchCycle::new();
    let second = next_cycle.on_success(&mut feed);
    assert_eq!(second, 1);
}

#[test]
fn two_failures_then_success_publishes_once() {
    let mut feed = TemplateFeed::new();
    let mut cycle = FetchCycle::new();
    // first failed attempt: retry after 100 ms
    match cycle.on_failure() {
        FetchDecision::RetryAfterMillis { millis } => assert_eq!(millis, 100),
        FetchDecision::Abandon => panic!("should retry"),
    }
    // second failed attempt: retry after 200 ms
    match cycle.on_failure() {
        FetchDecision::RetryAfterMillis { millis } => assert_eq!(millis, 200),
        FetchDecision::Abandon => panic!("should retry"),
    }
    // third attempt succeeds: exactly one id is assigned for this cycle
    let id = cycle.on_success(&mut feed);
    assert_eq!(id, 0);
    // the next cycle's publish gets the next id: nothing was published in between
    let mut next_cycle = FetchCycle::new();
    assert_eq!(next_cycle.on_success(&mut feed), 1);
}

#[test]
fn three_failures_abandon_the_cycle() {
    let mut cycle = FetchCycle::new();
    assert!(matches!(cycle.on_failure(), FetchDecision::RetryAfterMillis { millis: 100 }));
    assert!(matches!(cycle.on_failure(), FetchDecision::RetryAfterMillis { millis: 200 }));
    assert!(matches!(cycle.on_failure(), FetchDecision::Abandon));
    // an abandoned cycle assigned no id: the next successful cycle still gets id 0
    let mut feed = TemplateFeed::new();
    let mut next_cycle = FetchCycle::new();
    assert_eq!(next_cycle.on_success(&mut feed), 0);
}
