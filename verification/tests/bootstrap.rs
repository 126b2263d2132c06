//! Scenarios for the bounded-retry bootstrap: the exact attempt count on
//! an unreachable address, the fixed backoff between attempts, and an
//! eventual success.

use subxtxt::bootstrap::{
    Bootstrap, BootstrapPhase, BootstrapStep, DEFAULT_RETRIES, RETRY_WAIT_SECS,
};
use subxtxt::error::Error;

#[test]
fn unreachable_address_makes_exactly_n_plus_one_attempts() {
    let retries: u32 = 3;
    let mut b = Bootstrap::new(retries);
    let mut attempts: u64 = 0;
    loop {
        match b.on_attempt(false) {
            BootstrapStep::Connected => panic!("no attempt succeeded"),
            BootstrapStep::RetryAfterWait { wait_secs } => {
                attempts += 1;
                assert_eq!(wait_secs, RETRY_WAIT_SECS);
            }
            BootstrapStep::Aborted => {
                attempts += 1;
                break;
            }
        }
    }
    assert_eq!(attempts, retries as u64 + 1);
    assert_eq!(b.attempts_made, retries as u64 + 1);
    assert_eq!(b.phase, BootstrapPhase::Aborted);
    let err = b.error().unwrap();
    assert_eq!(err, Error::RetriesExhausted);
    assert!(err.is_fatal());
}

#[test]
fn zero_retries_aborts_after_single_attempt() {
    let mut b = Bootstrap::new(0);
    assert_eq!(b.on_attempt(false), BootstrapStep::Aborted);
    assert_eq!(b.attempts_made, 1);
}

#[test]
fn success_connects_and_spends_no_further_budget() {
    let mut b = Bootstrap::new(5);
    assert_eq!(
        b.on_attempt(false),
        BootstrapStep::RetryAfterWait { wait_secs: RETRY_WAIT_SECS }
    );
    assert_eq!(b.on_attempt(true), BootstrapStep::Connected);
    assert_eq!(b.phase, BootstrapPhase::Connected);
    assert_eq!(b.attempts_made, 2);
    assert_eq!(b.retries_left, 4);
    assert_eq!(b.error(), None);
}

#[test]
fn default_budget_is_ten_retries_of_one_second() {
    assert_eq!(DEFAULT_RETRIES, 10);
    assert_eq!(RETRY_WAIT_SECS, 1);
}
