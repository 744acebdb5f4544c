use docsbot::ratelimit::{calc_sleep, followup_sleep, is_search_path, needs_retry, select_bucket,
    RateLimit, RateLimitResources, RetryDecision, RetryState};

#[test]
fn retry_with_remaining_calls_is_immediate() {
    // A failing response that still reports remaining calls is retried with
    // zero delay.
    assert_eq!(needs_retry(false, Some(5), Some(1000), 2000), Some(0));
    assert_eq!(needs_retry(false, Some(1), Some(0), 0), Some(0));
}

#[test]
fn successful_response_needs_no_retry() {
    assert_eq!(needs_retry(true, Some(0), Some(1000), 0), None);
    assert_eq!(needs_retry(true, None, None, 0), None);
}

#[test]
fn error_without_rate_limit_headers_propagates() {
    assert_eq!(needs_retry(false, None, Some(1000), 0), None);
    assert_eq!(needs_retry(false, Some(0), None, 0), None);
    assert_eq!(needs_retry(false, None, None, 0), None);
}

#[test]
fn exhausted_remaining_sleeps_to_reset_plus_ten() {
    // reset is 100 seconds ahead: sleep 100 + 10.
    assert_eq!(needs_retry(false, Some(0), Some(1000), 900), Some(110));
    // reset already past: max(0, reset - now) + 10 == 10.
    assert_eq!(needs_retry(false, Some(0), Some(100), 200), Some(10));
    // reset exactly now.
    assert_eq!(needs_retry(false, Some(0), Some(500), 500), Some(10));
}

#[test]
fn calc_sleep_never_negative() {
    assert_eq!(calc_sleep(200, 100), 100);
    assert_eq!(calc_sleep(100, 200), 0);
    assert_eq!(calc_sleep(100, 100), 0);
}

#[test]
fn retry_budget_allows_two_attempts_only() {
    let mut state = RetryState::new();
    assert_eq!(state.attempts_left, 2);
    // Three rate-limited responses in a row: two retries, then give up.
    let d1 = state.step(false, Some(0), Some(100), 90);
    assert_eq!(d1, RetryDecision::RetryAfter(20));
    let d2 = state.step(false, Some(3), Some(100), 90);
    assert_eq!(d2, RetryDecision::RetryAfter(0));
    let d3 = state.step(false, Some(0), Some(100), 90);
    assert_eq!(d3, RetryDecision::GiveUp);
    let d4 = state.step(false, Some(0), Some(100), 90);
    assert_eq!(d4, RetryDecision::GiveUp);
}

#[test]
fn retry_budget_passes_success_through() {
    let mut state = RetryState::new();
    let d = state.step(true, Some(0), Some(100), 0);
    assert_eq!(d, RetryDecision::Done);
    assert_eq!(state.attempts_left, 2);
    // A plain error without rate-limit headers is also passed through.
    let d = state.step(false, None, None, 0);
    assert_eq!(d, RetryDecision::Done);
    assert_eq!(state.attempts_left, 2);
}

#[test]
fn search_paths_use_the_search_bucket() {
    assert!(is_search_path("/search/issues"));
    assert!(is_search_path("search/code"));
    assert!(!is_search_path("/repos/a/b/pulls"));
    assert!(!is_search_path("/searches/x"));
    assert!(!is_search_path(""));
    let resources = RateLimitResources {
        core: RateLimit { limit: 5000, remaining: 1, reset: 10 },
        search: RateLimit { limit: 30, remaining: 2, reset: 20 },
    };
    assert_eq!(select_bucket(&resources, true).reset, 20);
    assert_eq!(select_bucket(&resources, false).reset, 10);
}

#[test]
fn followup_sleep_waits_only_for_an_exhausted_bucket() {
    let exhausted = RateLimit { limit: 5000, remaining: 0, reset: 150 };
    assert_eq!(followup_sleep(&exhausted, 100), Some(50));
    // Reset already past: no second sleep.
    assert_eq!(followup_sleep(&exhausted, 150), None);
    let fresh = RateLimit { limit: 5000, remaining: 10, reset: 150 };
    assert_eq!(followup_sleep(&fresh, 100), None);
}
