use greetd_bridge::{backoff_delay, should_retry_immediately, Backoff, FailureClass, RetryDecision, RetryState};

#[test]
fn backoff_doubles_from_base() {
    assert_eq!(backoff_delay(2, 0), 2);
    assert_eq!(backoff_delay(2, 1), 4);
    assert_eq!(backoff_delay(2, 2), 8);
    assert_eq!(backoff_delay(3, 10), 3072);
    assert_eq!(backoff_delay(0, 5), 0);
    for a in 0..20u32 {
        assert!(backoff_delay(5, a) < backoff_delay(5, a + 1));
    }
}

#[test]
fn backoff_saturates() {
    assert_eq!(backoff_delay(u64::MAX, 1), u64::MAX);
    assert_eq!(backoff_delay(1, 63), 1u64 << 63);
    assert_eq!(backoff_delay(1, 64), u64::MAX);
    assert_eq!(backoff_delay(1, u32::MAX), u64::MAX);
}

#[test]
fn connect_failures_back_off_then_abort() {
    let mut r = RetryState::new(3, 2, Backoff::Exponential);
    let mut delays = Vec::new();
    while !r.exhausted() {
        match r.record_failure(FailureClass::Connection) {
            RetryDecision::RetryAfter(d) => delays.push(d),
            other => panic!("unexpected decision {:?}", other),
        }
    }
    assert_eq!(delays, vec![2, 4, 8]);
    assert_eq!(r.attempt(), 3);
    assert_eq!(r.record_failure(FailureClass::Connection), RetryDecision::GiveUp);
    assert_eq!(r.attempt(), 3);
}

#[test]
fn rejected_credentials_retry_at_once() {
    assert!(should_retry_immediately(FailureClass::Authentication));
    assert!(!should_retry_immediately(FailureClass::Connection));
    let mut r = RetryState::new(3, 2, Backoff::Exponential);
    assert_eq!(r.record_failure(FailureClass::Authentication), RetryDecision::RetryNow);
    assert_eq!(r.attempt(), 1);
    assert_eq!(r.last_failure(), Some(FailureClass::Authentication));
    assert_eq!(r.record_failure(FailureClass::Daemon), RetryDecision::RetryAfter(4));
    assert_eq!(r.record_failure(FailureClass::Authentication), RetryDecision::RetryNow);
    assert!(r.exhausted());
    assert_eq!(r.record_failure(FailureClass::Authentication), RetryDecision::GiveUp);
}

#[test]
fn fixed_backoff_and_reset() {
    let mut r = RetryState::new(5, 7, Backoff::Fixed);
    assert_eq!(r.record_failure(FailureClass::Connection), RetryDecision::RetryAfter(7));
    assert_eq!(r.record_failure(FailureClass::Connection), RetryDecision::RetryAfter(7));
    r.record_success();
    assert_eq!(r.attempt(), 0);
    assert_eq!(r.last_failure(), None);
    let mut none = RetryState::new(0, 1, Backoff::Fixed);
    assert!(none.exhausted());
    assert_eq!(none.record_failure(FailureClass::Connection), RetryDecision::GiveUp);
}
