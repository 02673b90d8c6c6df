use mark_flaky_tests_core::config::RetryConfig;
use mark_flaky_tests_core::outcome::Outcome;
use mark_flaky_tests_core::retry::{settle, Attempt, RetryLoop, Verdict};

fn loose(retries: usize) -> RetryConfig {
    RetryConfig { retries, strict: false }
}

fn strict(retries: usize) -> RetryConfig {
    RetryConfig { retries, strict: true }
}

#[test]
fn new_leaves_one_attempt_for_the_end() {
    let run = RetryLoop::new(loose(3));
    assert_eq!(run, RetryLoop { strict: false, remaining: 2 });
    let run = RetryLoop::new(strict(1));
    assert_eq!(run, RetryLoop { strict: true, remaining: 0 });
}

#[test]
fn begin_refuses_a_count_of_zero() {
    assert_eq!(RetryLoop::begin(loose(0)), None);
    assert_eq!(RetryLoop::begin(strict(0)), None);
    assert_eq!(RetryLoop::begin(strict(4)), Some(RetryLoop { strict: true, remaining: 3 }));
}

#[test]
fn attempts_by_mode() {
    assert_eq!(RetryLoop::new(loose(3)).next_attempt(), Attempt::Guarded);
    assert_eq!(RetryLoop::new(strict(3)).next_attempt(), Attempt::Direct);
    assert_eq!(RetryLoop::new(loose(1)).next_attempt(), Attempt::Final);
    assert_eq!(RetryLoop::new(strict(1)).next_attempt(), Attempt::Final);
}

#[test]
fn loose_loop_drops_failures_and_panics() {
    let mut run = RetryLoop::new(loose(3));
    assert_eq!(run.observe(Outcome::Failed), Verdict::Retry);
    assert_eq!(run.remaining, 1);
    assert_eq!(run.next_attempt(), Attempt::Guarded);
    assert_eq!(run.observe(Outcome::Panicked), Verdict::Retry);
    assert_eq!(run.remaining, 0);
    assert_eq!(run.next_attempt(), Attempt::Final);
    assert_eq!(run.observe(Outcome::Failed), Verdict::Return);
    assert_eq!(run.remaining, 0);
}

#[test]
fn loose_loop_returns_a_pass() {
    let mut run = RetryLoop::new(loose(3));
    assert_eq!(run.observe(Outcome::Passed), Verdict::Return);
    assert_eq!(run, RetryLoop { strict: false, remaining: 2 });
}

#[test]
fn strict_loop_returns_a_failure_and_repeats_a_pass() {
    let mut run = RetryLoop::new(strict(3));
    assert_eq!(run.observe(Outcome::Passed), Verdict::Retry);
    assert_eq!(run.remaining, 1);
    assert_eq!(run.next_attempt(), Attempt::Direct);
    assert_eq!(run.observe(Outcome::Failed), Verdict::Return);
    assert_eq!(run.remaining, 1);
    let mut run = RetryLoop::new(strict(3));
    assert_eq!(run.observe(Outcome::Panicked), Verdict::Return);
}

#[test]
fn final_attempt_always_returns() {
    for is_strict in [false, true] {
        for outcome in [Outcome::Passed, Outcome::Failed, Outcome::Panicked] {
            let mut run = RetryLoop { strict: is_strict, remaining: 0 };
            assert_eq!(run.observe(outcome), Verdict::Return);
            assert_eq!(run, RetryLoop { strict: is_strict, remaining: 0 });
        }
    }
}

#[test]
fn loose_returns_success_after_k_failures() {
    let script = vec![Outcome::Failed, Outcome::Panicked, Outcome::Passed, Outcome::Failed];
    assert_eq!(settle(loose(3), &script), Some(2));
    assert_eq!(settle(loose(4), &script), Some(2));
    assert_eq!(settle(loose(10), &script), Some(2));
    let script = vec![Outcome::Passed, Outcome::Failed];
    assert_eq!(settle(loose(2), &script), Some(0));
}

#[test]
fn loose_lets_the_final_failure_through() {
    let script = vec![Outcome::Failed, Outcome::Failed, Outcome::Failed, Outcome::Passed];
    assert_eq!(settle(loose(3), &script), Some(2));
    assert_eq!(settle(loose(2), &script), Some(1));
    let script = vec![Outcome::Panicked, Outcome::Panicked, Outcome::Panicked];
    assert_eq!(settle(loose(3), &script), Some(2));
}

#[test]
fn strict_returns_first_failure() {
    let script = vec![Outcome::Failed, Outcome::Passed, Outcome::Passed];
    assert_eq!(settle(strict(3), &script), Some(0));
    let script = vec![Outcome::Passed, Outcome::Failed, Outcome::Passed];
    assert_eq!(settle(strict(3), &script), Some(1));
    let script = vec![Outcome::Passed, Outcome::Panicked, Outcome::Passed];
    assert_eq!(settle(strict(5), &script), Some(1));
}

#[test]
fn strict_repeats_passing_attempts_to_the_end() {
    let script = vec![Outcome::Passed, Outcome::Passed, Outcome::Passed, Outcome::Failed];
    assert_eq!(settle(strict(3), &script), Some(2));
    assert_eq!(settle(strict(4), &script), Some(3));
}

#[test]
fn one_retry_is_one_attempt() {
    for is_strict in [false, true] {
        for outcome in [Outcome::Passed, Outcome::Failed, Outcome::Panicked] {
            let config = RetryConfig { retries: 1, strict: is_strict };
            let script = vec![outcome, Outcome::Passed, Outcome::Failed];
            assert_eq!(settle(config, &script), Some(0));
        }
    }
}

#[test]
fn script_that_ends_early_settles_nothing() {
    assert_eq!(settle(loose(3), &vec![]), None);
    assert_eq!(settle(loose(3), &vec![Outcome::Failed, Outcome::Failed]), None);
    assert_eq!(settle(strict(3), &vec![Outcome::Passed]), None);
    assert_eq!(settle(loose(0), &vec![Outcome::Passed]), None);
}
