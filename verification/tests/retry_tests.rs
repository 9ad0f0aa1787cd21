use attested_router::retry::RetryPolicy;
use attested_router::retry::RetryState;

#[test]
fn backoff_doubles_until_cap() {
    let p = RetryPolicy { max_attempts: 10, base_delay_ms: 100, max_delay_ms: 800 };
    let mut r = RetryState::new(&p);
    assert_eq!(r.failures(), 0);
    assert_eq!(r.next_delay_ms(), 100);
    assert!(r.record_failure(&p));
    assert_eq!(r.next_delay_ms(), 200);
    assert!(r.record_failure(&p));
    assert_eq!(r.next_delay_ms(), 400);
    assert!(r.record_failure(&p));
    assert_eq!(r.next_delay_ms(), 800);
    assert!(r.record_failure(&p));
    assert_eq!(r.next_delay_ms(), 800);
    assert_eq!(r.failures(), 4);
}

#[test]
fn budget_exhaustion_is_terminal() {
    let p = RetryPolicy { max_attempts: 3, base_delay_ms: 10, max_delay_ms: 1000 };
    let mut r = RetryState::new(&p);
    assert!(r.record_failure(&p));
    assert!(r.record_failure(&p));
    assert!(!r.record_failure(&p));
    assert!(r.exhausted(&p));
}

#[test]
fn odd_cap_saturates() {
    let p = RetryPolicy { max_attempts: 5, base_delay_ms: 500, max_delay_ms: 601 };
    let mut r = RetryState::new(&p);
    assert!(r.record_failure(&p));
    assert_eq!(r.next_delay_ms(), 601);
    assert!(r.record_failure(&p));
    assert_eq!(r.next_delay_ms(), 601);
}
