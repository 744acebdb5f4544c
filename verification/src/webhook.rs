//! The webhook boundary's decisions: naming the event from its header,
//! classifying a request, and turning one decoded event into a queued task.
//!
//! The HTTP listener itself, and the decoding of the JSON payload, are the
//! surrounding binary's work; everything it branches on is decided here.

use vstd::prelude::*;
use crate::config::{Config, ConfigurationError};
use crate::github::{Event, PullRequestEvent};
use crate::handlers::{handle, spec_accepted, spec_task_matches, DispatchOutcome, HandlerError,
    TaskQueue};

verus! {

/// The kinds of event the platform announces in the event header; anything
/// unrecognized is `Other`, decided once here and never re-derived from the
/// raw string downstream.
#[derive(Debug, Clone, Copy, PartialEq, Eq, Structural)]
pub enum EventName {
    PullRequest,
    PullRequestReview,
    PullRequestReviewComment,
    IssueComment,
    Issue,
    Push,
    Create,
    Other,
}

/// The event a header value names.
pub open spec fn spec_event_name(s: Seq<char>) -> EventName {
    if s == "pull_request_review"@ {
        EventName::PullRequestReview
    } else if s == "pull_request_review_comment"@ {
        EventName::PullRequestReviewComment
    } else if s == "issue_comment"@ {
        EventName::IssueComment
    } else if s == "pull_request"@ {
        EventName::PullRequest
    } else if s == "issues"@ {
        EventName::Issue
    } else if s == "push"@ {
        EventName::Push
    } else if s == "create"@ {
        EventName::Create
    } else {
        EventName::Other
    }
}

impl EventName {
    /// Names the event a header value announces; parsing never fails.
    pub fn parse(s: &str) -> (r: EventName)
        ensures
            r == spec_event_name(s@),
    {
        if crate::strutil::str_eq(s, "pull_request_review") {
            EventName::PullRequestReview
        } else if crate::strutil::str_eq(s, "pull_request_review_comment") {
            EventName::PullRequestReviewComment
        } else if crate::strutil::str_eq(s, "issue_comment") {
            EventName::IssueComment
        } else if crate::strutil::str_eq(s, "pull_request") {
            EventName::PullRequest
        } else if crate::strutil::str_eq(s, "issues") {
            EventName::Issue
        } else if crate::strutil::str_eq(s, "push") {
            EventName::Push
        } else if crate::strutil::str_eq(s, "create") {
            EventName::Create
        } else {
            EventName::Other
        }
    }

    /// The event's name as the platform writes it.
    pub fn name(&self) -> (r: String)
        ensures
            match self {
                EventName::PullRequest => r@ == "pull_request"@,
                EventName::PullRequestReview => r@ == "pull_request_review"@,
                EventName::PullRequestReviewComment => r@ == "pull_request_review_comment"@,
                EventName::IssueComment => r@ == "issue_comment"@,
                EventName::Issue => r@ == "issues"@,
                EventName::Push => r@ == "push"@,
                EventName::Create => r@ == "create"@,
                EventName::Other => r@ == "other"@,
            },
    {
        match self {
            EventName::PullRequest => "pull_request".to_owned(),
            EventName::PullRequestReview => "pull_request_review".to_owned(),
            EventName::PullRequestReviewComment => "pull_request_review_comment".to_owned(),
            EventName::IssueComment => "issue_comment".to_owned(),
            EventName::Issue => "issues".to_owned(),
            EventName::Push => "push".to_owned(),
            EventName::Create => "create".to_owned(),
            EventName::Other => "other".to_owned(),
        }
    }
}

/// A failure while handling a webhook delivery; its diagnostic text.
#[derive(Debug, Clone, PartialEq, Eq)]
pub struct WebhookError(pub String);

/// What the boundary does with a request, decided from its method, path,
/// event header, and whether header and body were valid text.
#[derive(Debug, Clone, Copy, PartialEq, Eq, Structural)]
pub enum RequestClass {
    /// Not the webhook endpoint: any path or method but a post to it.
    NotFound,
    /// The event header is not there.
    MissingHeader,
    /// The event header is not valid text.
    HeaderNotUtf8,
    /// The body is not valid text.
    BodyNotUtf8,
    /// A well-formed delivery of this event.
    Handle(EventName),
}

/// Classifies one request.  The header argument is `None` when the event
/// header is absent, `Some(None)` when it is not valid text.
pub fn classify_request(
    method: &str,
    path: &str,
    header: Option<Option<&str>>,
    body_utf8: bool,
) -> (r: RequestClass)
    ensures
        !(method@ == "POST"@ && path@ == "/github-hook"@) ==> r is NotFound,
        method@ == "POST"@ && path@ == "/github-hook"@ ==> match header {
            None => r is MissingHeader,
            Some(None) => r is HeaderNotUtf8,
            Some(Some(h)) => if body_utf8 {
                r == RequestClass::Handle(spec_event_name(h@))
            } else {
                r is BodyNotUtf8
            },
        },
{
    if !(crate::strutil::str_eq(method, "POST") && crate::strutil::str_eq(path, "/github-hook")) {
        return RequestClass::NotFound;
    }
    match header {
        None => RequestClass::MissingHeader,
        Some(None) => RequestClass::HeaderNotUtf8,
        Some(Some(h)) => {
            if body_utf8 {
                RequestClass::Handle(EventName::parse(h))
            } else {
                RequestClass::BodyNotUtf8
            }
        },
    }
}

/// The boundary's reply for a handled delivery: whether it was processed or
/// filtered out.
pub fn response_body(processed: bool) -> (r: String)
    ensures
        processed ==> r@ == "processed request"@,
        !processed ==> r@ == "ignored request"@,
{
    if processed {
        "processed request".to_owned()
    } else {
        "ignored request".to_owned()
    }
}

/// Handles one delivery: a pull-request event is dispatched — its payload
/// arrives already decoded — and `Ok(true)` says a task was enqueued; any
/// other event, an unconfigured repository, or an unmerged pull request is
/// `Ok(false)`, answered as ignored.
pub fn webhook(
    event: EventName,
    payload: Option<PullRequestEvent>,
    config_result: &Result<Config, ConfigurationError>,
    queue: &mut TaskQueue,
) -> (r: Result<bool, WebhookError>)
    requires
        event is PullRequest ==> payload is Some,
    ensures
        r is Ok,
        !(event is PullRequest) ==> r == Ok::<bool, WebhookError>(false) && final(queue)@ == old(
            queue,
        )@,
        event is PullRequest ==> (payload matches Some(p) ==> {
            let accepted = spec_accepted(*config_result, Event::PullRequest(p));
            &&& r == Ok::<bool, WebhookError>(accepted)
            &&& accepted ==> final(queue)@ == old(queue)@.push(final(queue)@.last())
                && spec_task_matches(final(queue)@.last(), p)
            &&& !accepted ==> final(queue)@ == old(queue)@
        }),
{
    match event {
        EventName::PullRequest => {
            match payload {
                Some(p) => {
                    let ev = Event::PullRequest(p);
                    let (errors, outcome) = handle(config_result, &ev, queue);
                    let mut other_error = false;
                    let n = errors.len();
                    let mut i: usize = 0;
                    while i < n
                        invariant
                            i <= n,
                            n == errors@.len(),
                            other_error == exists|j: int|
                                0 <= j < i && #[trigger] errors@[j] is Other,
                        decreases n - i,
                    {
                        if matches!(&errors[i], HandlerError::Other(_)) {
                            other_error = true;
                        }
                        i = i + 1;
                    }
                    if other_error {
                        // The dispatcher reports failures as messages; an
                        // internal error would be answered as one here.
                        return Err(WebhookError("handling failed, error logged".to_owned()));
                    }
                    Ok(matches!(outcome, DispatchOutcome::Enqueued))
                },
                None => {
                    proof {
                        assert(false);
                    }
                    Ok(false)
                },
            }
        },
        _ => Ok(false),
    }
}

} // verus!
