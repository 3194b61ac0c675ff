use service_supervisor::port::PortScan;
use service_supervisor::probe::{ProbeStep, Prober};
use service_supervisor::retry::{backoff_ms, RetryPolicy};

fn probe_policy() -> RetryPolicy {
    RetryPolicy { max_attempts: 6, initial_delay_ms: 500, mult_num: 6, mult_den: 5 }
}

#[test]
fn scan_walks_the_range_in_ascending_order() {
    let mut scan = PortScan::new(3000, 3003);
    assert_eq!(scan.candidate(), Some(3000));
    scan.mark_busy();
    assert_eq!(scan.candidate(), Some(3001));
    scan.mark_busy();
    assert_eq!(scan.candidate(), Some(3002));
    scan.mark_busy();
    assert_eq!(scan.candidate(), None);
}

#[test]
fn scan_of_empty_range_finds_nothing() {
    let scan = PortScan::new(5000, 5000);
    assert_eq!(scan.candidate(), None);
}

#[test]
fn ready_on_the_first_answering_poll() {
    let mut prober = Prober::new(probe_policy());
    assert_eq!(prober.delay_before_next(), 500);
    let step = prober.record(true);
    assert!(matches!(step, ProbeStep::Ready));
    assert_eq!(prober.attempts, 0);
}

#[test]
fn timeout_after_exactly_the_poll_budget() {
    let mut prober = Prober::new(probe_policy());
    let expected_delays = [600, 720, 864, 1036, 1243];
    for expected in expected_delays {
        match prober.record(false) {
            ProbeStep::Retry { delay_ms } => assert_eq!(delay_ms, expected),
            _ => panic!("expected a retry before the budget is spent"),
        }
    }
    let last = prober.record(false);
    assert!(matches!(last, ProbeStep::TimedOut));
    assert_eq!(prober.attempts, 6);
}

#[test]
fn answering_after_some_failures_is_still_ready() {
    let mut prober = Prober::new(probe_policy());
    assert!(matches!(prober.record(false), ProbeStep::Retry { .. }));
    assert!(matches!(prober.record(false), ProbeStep::Retry { .. }));
    assert!(matches!(prober.record(true), ProbeStep::Ready));
}

#[test]
fn fractional_backoff_grows_instead_of_collapsing() {
    let mut previous = backoff_ms(500, 6, 5, 0);
    assert_eq!(previous, 500);
    for attempt in 1..10 {
        let next = backoff_ms(500, 6, 5, attempt);
        assert!(next > previous, "delay must keep growing");
        previous = next;
    }
}

#[test]
fn doubling_backoff_matches_powers_of_two() {
    for attempt in 0..5 {
        assert_eq!(backoff_ms(1000, 2, 1, attempt), 1000u64 << attempt);
    }
}
