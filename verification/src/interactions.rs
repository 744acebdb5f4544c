//! Prepared interactions with a pull request's conversation.

use vstd::prelude::*;
use crate::github::PullRequest;

verus! {

/// An error message prepared for posting as a comment on a pull request.
#[derive(Debug)]
pub struct ErrorComment<'a> {
    pub pull_request: &'a PullRequest,
    pub message: String,
}

impl<'a> ErrorComment<'a> {
    /// Prepares a comment carrying `message` for `pull_request`.
    pub fn new(pull_request: &'a PullRequest, message: String) -> (r: ErrorComment<'a>)
        ensures
            r.pull_request == pull_request,
            r.message@ == message@,
    {
        ErrorComment { pull_request, message }
    }
}

} // verus!
