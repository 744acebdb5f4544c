//! Rate-limit handling of the outbound API client: when a failed request is
//! retried, how long to sleep first, and how the retry budget runs out.
//!
//! The client itself performs the requests and the sleeps; every decision it
//! acts on is computed and proved here, from the response's status, its two
//! rate-limit headers, and the current epoch time.

use vstd::prelude::*;

verus! {

/// One rate-limit bucket as the platform reports it: calls left, and the
/// epoch second at which the quota resets.
#[derive(Debug, Clone, Copy, PartialEq, Eq, Structural)]
pub struct RateLimit {
    pub limit: u64,
    pub remaining: u64,
    pub reset: u64,
}

/// The buckets the client distinguishes: general calls and search calls.
#[derive(Debug, Clone, Copy, PartialEq, Eq, Structural)]
pub struct RateLimitResources {
    pub core: RateLimit,
    pub search: RateLimit,
}

/// Seconds from `now_epoch` until `reset_time`, and zero for a reset already
/// past.
pub open spec fn spec_calc_sleep(reset_time: u64, now_epoch: u64) -> u64 {
    if reset_time >= now_epoch {
        (reset_time - now_epoch) as u64
    } else {
        0
    }
}

/// Seconds from `now_epoch` until `reset_time`, and zero for a reset already
/// past.
pub fn calc_sleep(reset_time: u64, now_epoch: u64) -> (r: u64)
    ensures
        r == spec_calc_sleep(reset_time, now_epoch),
{
    if reset_time >= now_epoch {
        reset_time - now_epoch
    } else {
        0
    }
}

/// The sleep before retrying a rate-limited call: the seconds until the reset,
/// and ten more for the platform's clock; saturating at the top of `u64`,
/// which no real epoch reaches.
pub open spec fn spec_backoff_sleep(reset_time: u64, now_epoch: u64) -> u64 {
    if spec_calc_sleep(reset_time, now_epoch) + 10 <= u64::MAX {
        (spec_calc_sleep(reset_time, now_epoch) + 10) as u64
    } else {
        u64::MAX
    }
}

/// Whether a response calls for a retry, and after how many seconds.
///
/// `None` means the response needs no retry handling: it either succeeded or
/// its error is not rate-limiting and propagates at once.  The two header
/// arguments are `None` when the response lacks the remaining-calls or
/// reset-time header.
pub open spec fn spec_needs_retry(
    success: bool,
    remaining: Option<u64>,
    reset: Option<u64>,
    now_epoch: u64,
) -> Option<u64> {
    if success {
        None
    } else if remaining is None || reset is None {
        None
    } else if remaining != Some(0u64) {
        Some(0u64)
    } else {
        Some(spec_backoff_sleep(reset->0, now_epoch))
    }
}

/// Whether a response calls for a retry, and after how many seconds: see
/// `spec_needs_retry`.
pub fn needs_retry(success: bool, remaining: Option<u64>, reset: Option<u64>, now_epoch: u64) -> (r:
    Option<u64>)
    ensures
        r == spec_needs_retry(success, remaining, reset, now_epoch),
{
    if success {
        return None;
    }
    let rem = match remaining {
        Some(v) => v,
        None => {
            return None;
        },
    };
    let res = match reset {
        Some(v) => v,
        None => {
            return None;
        },
    };
    if rem != 0 {
        // The platform sometimes asks for a retry while still reporting calls
        // remaining; such a response is retried at once.
        Some(0)
    } else {
        let base = calc_sleep(res, now_epoch);
        if base <= u64::MAX - 10 {
            Some(base + 10)
        } else {
            Some(u64::MAX)
        }
    }
}

/// A failing response that still reports remaining calls is retried at once,
/// with no sleep at all.
pub proof fn lemma_nonzero_remaining_retries_immediately(
    remaining: u64,
    reset: u64,
    now_epoch: u64,
)
    requires
        remaining != 0,
    ensures
        spec_needs_retry(false, Some(remaining), Some(reset), now_epoch) == Some(0u64),
{
}

/// A failing response with no remaining calls sleeps for the time to the
/// reset and ten seconds more — never less than ten, and exactly
/// `max(0, reset - now) + 10` whenever that sum is representable.
pub proof fn lemma_exhausted_remaining_sleep(reset: u64, now_epoch: u64)
    ensures
        spec_needs_retry(false, Some(0u64), Some(reset), now_epoch) == Some(
            spec_backoff_sleep(reset, now_epoch),
        ),
        spec_backoff_sleep(reset, now_epoch) >= 10,
        reset >= now_epoch && reset - now_epoch + 10 <= u64::MAX ==> spec_backoff_sleep(
            reset,
            now_epoch,
        ) == reset - now_epoch + 10,
        reset < now_epoch ==> spec_backoff_sleep(reset, now_epoch) == 10,
{
}

/// Whether a request path is charged to the search bucket: its first segment
/// is `search`.
pub open spec fn spec_is_search_path(path: Seq<char>) -> bool {
    crate::strutil::spec_fields(path, '/').len() > 0 && crate::strutil::spec_fields(path, '/')[0]
        == "search"@
}

/// Whether a request path is charged to the search bucket.
pub fn is_search_path(path: &str) -> (r: bool)
    ensures
        r == spec_is_search_path(path@),
{
    let fields = crate::strutil::split_fields(path, '/');
    if fields.len() == 0 {
        return false;
    }
    let r = crate::strutil::str_eq(fields[0].as_str(), "search");
    proof {
        assert(fields.deep_view()[0] == fields@[0]@);
    }
    r
}

/// The bucket a request with the given path is charged to.
pub fn select_bucket<'a>(resources: &'a RateLimitResources, search: bool) -> (r: &'a RateLimit)
    ensures
        *r == if search {
            resources.search
        } else {
            resources.core
        },
{
    if search {
        &resources.search
    } else {
        &resources.core
    }
}

/// After the first backoff, the chosen bucket is consulted once more: if it
/// still reports no remaining calls and its reset is still ahead, the client
/// sleeps again for the seconds until that reset.
pub open spec fn spec_followup_sleep(bucket: RateLimit, now_epoch: u64) -> Option<u64> {
    if bucket.remaining == 0 && spec_calc_sleep(bucket.reset, now_epoch) > 0 {
        Some(spec_calc_sleep(bucket.reset, now_epoch))
    } else {
        None
    }
}

/// The second sleep taken after consulting the rate-limit status endpoint:
/// see `spec_followup_sleep`.
pub fn followup_sleep(bucket: &RateLimit, now_epoch: u64) -> (r: Option<u64>)
    ensures
        r == spec_followup_sleep(*bucket, now_epoch),
{
    if bucket.remaining == 0 {
        let s = calc_sleep(bucket.reset, now_epoch);
        if s > 0 {
            return Some(s);
        }
    }
    None
}

/// How many retries the client may still issue for the request in hand.
#[derive(Debug, Clone, Copy, PartialEq, Eq, Structural)]
pub struct RetryState {
    pub attempts_left: u64,
}

/// What the client does with a response: pass it on, retry after a sleep, or
/// give up because the retry budget is spent.
#[derive(Debug, Clone, Copy, PartialEq, Eq, Structural)]
pub enum RetryDecision {
    /// No retry handling applies; the response — success or plain error —
    /// goes to the caller.
    Done,
    /// Retry the request after this many seconds.
    RetryAfter(u64),
    /// The response is still rate-limited but the budget is spent; the last
    /// error goes to the caller.
    GiveUp,
}

/// The decision for one response under the given budget.
pub open spec fn spec_retry_decision(
    s: RetryState,
    success: bool,
    remaining: Option<u64>,
    reset: Option<u64>,
    now_epoch: u64,
) -> RetryDecision {
    match spec_needs_retry(success, remaining, reset, now_epoch) {
        None => RetryDecision::Done,
        Some(sleep) => if s.attempts_left == 0 {
            RetryDecision::GiveUp
        } else {
            RetryDecision::RetryAfter(sleep)
        },
    }
}

/// The budget left after that decision: one attempt fewer on a retry,
/// unchanged otherwise.
pub open spec fn spec_retry_next(
    s: RetryState,
    success: bool,
    remaining: Option<u64>,
    reset: Option<u64>,
    now_epoch: u64,
) -> RetryState {
    match spec_retry_decision(s, success, remaining, reset, now_epoch) {
        RetryDecision::RetryAfter(_) => RetryState { attempts_left: (s.attempts_left - 1) as u64 },
        _ => s,
    }
}

impl RetryState {
    /// A fresh budget: the whole retry sequence is capped at two attempts.
    pub fn new() -> (r: RetryState)
        ensures
            r.attempts_left == 2,
    {
        RetryState { attempts_left: 2 }
    }

    /// Decides what to do with one response and charges the budget.
    pub fn step(&mut self, success: bool, remaining: Option<u64>, reset: Option<u64>, now_epoch: u64)
        -> (d: RetryDecision)
        ensures
            d == spec_retry_decision(*old(self), success, remaining, reset, now_epoch),
            *final(self) == spec_retry_next(*old(self), success, remaining, reset, now_epoch),
    {
        match needs_retry(success, remaining, reset, now_epoch) {
            None => RetryDecision::Done,
            Some(sleep) => {
                if self.attempts_left == 0 {
                    RetryDecision::GiveUp
                } else {
                    self.attempts_left = self.attempts_left - 1;
                    RetryDecision::RetryAfter(sleep)
                }
            },
        }
    }
}

/// A spent budget never retries: once `attempts_left` is zero the decision is
/// `Done` or `GiveUp`, whatever the response says.
pub proof fn lemma_no_retry_when_exhausted(
    s: RetryState,
    success: bool,
    remaining: Option<u64>,
    reset: Option<u64>,
    now_epoch: u64,
)
    requires
        s.attempts_left == 0,
    ensures
        !(spec_retry_decision(s, success, remaining, reset, now_epoch) is RetryAfter),
{
}

/// From a fresh budget, two retries exhaust it: whatever three responses
/// arrive, a third retry is never issued.
pub proof fn lemma_retry_budget_cap(
    ok1: bool,
    rem1: Option<u64>,
    rst1: Option<u64>,
    t1: u64,
    ok2: bool,
    rem2: Option<u64>,
    rst2: Option<u64>,
    t2: u64,
    ok3: bool,
    rem3: Option<u64>,
    rst3: Option<u64>,
    t3: u64,
)
    ensures
        ({
            let s0 = RetryState { attempts_left: 2 };
            let s1 = spec_retry_next(s0, ok1, rem1, rst1, t1);
            let s2 = spec_retry_next(s1, ok2, rem2, rst2, t2);
            (spec_retry_decision(s0, ok1, rem1, rst1, t1) is RetryAfter && spec_retry_decision(
                s1,
                ok2,
                rem2,
                rst2,
                t2,
            ) is RetryAfter) ==> !(spec_retry_decision(s2, ok3, rem3, rst3, t3) is RetryAfter)
        }),
{
}

} // verus!

