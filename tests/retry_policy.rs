use ticket_desk::retry::{RetryDecision, RetryPolicy};

fn policy(max_attempts: u32, base: u64, max: u64) -> RetryPolicy {
    RetryPolicy { max_attempts, base_delay_ms: base, max_delay_ms: max }
}

#[test]
fn backoff_doubles_until_capped() {
    let p = policy(6, 100, 500);
    assert_eq!(p.decide(1), RetryDecision::Retry { delay_ms: 100 });
    assert_eq!(p.decide(2), RetryDecision::Retry { delay_ms: 200 });
    assert_eq!(p.decide(3), RetryDecision::Retry { delay_ms: 400 });
    assert_eq!(p.decide(4), RetryDecision::Retry { delay_ms: 500 });
    assert_eq!(p.decide(5), RetryDecision::Retry { delay_ms: 500 });
    assert_eq!(p.decide(6), RetryDecision::GiveUp);
    assert_eq!(p.decide(u32::MAX), RetryDecision::GiveUp);
}

#[test]
fn base_above_cap_waits_the_cap() {
    let p = policy(3, 1000, 300);
    assert_eq!(p.decide(1), RetryDecision::Retry { delay_ms: 300 });
    assert_eq!(p.decide(2), RetryDecision::Retry { delay_ms: 300 });
}

#[test]
fn large_waits_do_not_overflow() {
    let p = policy(u32::MAX, u64::MAX / 2 + 1, u64::MAX);
    assert_eq!(p.decide(1), RetryDecision::Retry { delay_ms: u64::MAX / 2 + 1 });
    assert_eq!(p.decide(2), RetryDecision::Retry { delay_ms: u64::MAX });
    assert_eq!(p.decide(100), RetryDecision::Retry { delay_ms: u64::MAX });
}

#[test]
fn single_attempt_never_retries() {
    assert_eq!(policy(1, 10, 10).decide(1), RetryDecision::GiveUp);
    assert_eq!(policy(0, 10, 10).decide(1), RetryDecision::GiveUp);
}
