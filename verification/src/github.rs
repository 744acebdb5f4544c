//! The typed shape of the code-review platform's payloads, and the small
//! decisions made directly on them.
//!
//! Values of these types arrive already decoded from the webhook boundary or
//! from API responses; timestamps and other fields the logic never reads are
//! carried as plain strings.

use vstd::prelude::*;

verus! {

#[derive(Debug, Clone, PartialEq, Eq)]
pub struct User {
    pub login: String,
    pub id: Option<i64>,
}

#[derive(Debug, Clone, PartialEq, Eq)]
pub struct Label {
    pub name: String,
}

impl Label {
    /// The label's address under a repository's API prefix.
    pub fn url_under(&self, repo_api_prefix: &str) -> (r: String)
        ensures
            r@ == repo_api_prefix@ + "/labels/"@ + self.name@,
    {
        let mut s = String::from_str(repo_api_prefix);
        s.append("/labels/");
        s.append(self.name.as_str());
        s
    }
}

#[derive(Debug, Clone, PartialEq, Eq)]
pub struct PullRequest {
    pub number: u64,
    pub body: Option<String>,
    pub created_at: String,
    pub updated_at: String,
    pub merge_commit_sha: Option<String>,
    pub title: String,
    pub html_url: String,
    pub diff_url: String,
    pub user: User,
    pub labels: Vec<Label>,
    pub assignees: Vec<User>,
    pub merged: bool,
    pub comments_url: String,
}

impl PullRequest {
    /// The labels set on the pull request.
    pub fn labels(&self) -> (r: &[Label])
        ensures
            r@ == self.labels@,
    {
        self.labels.as_slice()
    }
}

#[derive(Debug, Clone, PartialEq, Eq)]
pub struct Comment {
    pub body: String,
    pub html_url: String,
    pub user: User,
    pub updated_at: String,
    pub pr_review_state: Option<PullRequestReviewState>,
}

#[derive(Debug, Clone, Copy, PartialEq, Eq, Structural)]
pub enum PullRequestReviewState {
    Approved,
    ChangesRequested,
    Commented,
    Dismissed,
    Pending,
}

#[derive(Debug)]
pub enum AssignmentError {
    InvalidAssignee,
    Http(String),
}

impl AssignmentError {
    /// The diagnostic text of the error.
    pub fn message(&self) -> (r: String)
        ensures
            match self {
                AssignmentError::InvalidAssignee => r@ == "invalid assignee"@,
                AssignmentError::Http(e) => r@ == "cannot assign: "@ + e@,
            },
    {
        match self {
            AssignmentError::InvalidAssignee => "invalid assignee".to_owned(),
            AssignmentError::Http(e) => crate::strutil::str_concat("cannot assign: ", e.as_str()),
        }
    }
}

#[derive(Debug)]
pub enum Selection<'a, T> {
    All,
    One(&'a T),
    Except(&'a T),
}

#[derive(Debug, Clone, PartialEq, Eq)]
pub struct PullRequestRepository {
    pub organization: String,
    pub repository: String,
}

impl PullRequestRepository {
    /// The repository name as the platform writes it: `organization/repository`.
    pub fn full_name(&self) -> (r: String)
        ensures
            r@ == self.organization@ + "/"@ + self.repository@,
    {
        let mut s = self.organization.clone();
        s.append("/");
        s.append(self.repository.as_str());
        s
    }

    /// The repository's base URL on the platform's REST API.
    pub fn url(&self) -> (r: String)
        ensures
            r@ == "https://api.github.com/repos/"@ + self.organization@ + "/"@ + self.repository@,
    {
        let mut s = "https://api.github.com/repos/".to_owned();
        s.append(self.organization.as_str());
        s.append("/");
        s.append(self.repository.as_str());
        s
    }
}

#[derive(Debug, Clone, PartialEq, Eq)]
pub struct Milestone {
    pub number: u64,
    pub title: String,
}

#[derive(Debug, Clone, PartialEq, Eq)]
pub struct ChangeInner {
    pub from: String,
}

#[derive(Debug, Clone, PartialEq, Eq)]
pub struct Changes {
    pub title: Option<ChangeInner>,
    pub body: Option<ChangeInner>,
}

#[derive(Debug, Clone, Copy, PartialEq, Eq, Structural)]
pub enum PullRequestReviewAction {
    Submitted,
    Edited,
    Dismissed,
}

#[derive(Debug, Clone, PartialEq, Eq)]
pub struct PullRequestReviewEvent {
    pub action: PullRequestReviewAction,
    pub pull_request: PullRequest,
    pub review: Comment,
    pub changes: Option<Changes>,
    pub repository: Repository,
}

#[derive(Debug, Clone, PartialEq, Eq)]
pub struct PullRequestReviewComment {
    pub action: PullRequestCommentAction,
    pub changes: Option<Changes>,
    pub pull_request: PullRequest,
    pub comment: Comment,
    pub repository: Repository,
}

#[derive(Debug, Clone, Copy, PartialEq, Eq, Structural)]
pub enum PullRequestCommentAction {
    Created,
    Edited,
    Deleted,
}

#[derive(Debug, Clone, PartialEq, Eq)]
pub struct PullRequestCommentEvent {
    pub action: PullRequestCommentAction,
    pub changes: Option<Changes>,
    pub pull_request: PullRequest,
    pub comment: Comment,
    pub repository: Repository,
}

#[derive(Debug, Clone, Copy, PartialEq, Eq, Structural)]
pub enum PullRequestAction {
    Opened,
    Edited,
    Deleted,
    Transferred,
    Pinned,
    Unpinned,
    Closed,
    Reopened,
    Assigned,
    Unassigned,
    Labeled,
    Unlabeled,
    Locked,
    Unlocked,
    Milestoned,
    Demilestoned,
    ReviewRequested,
    ReviewRequestRemoved,
    ReadyForReview,
    Synchronize,
    ConvertedToDraft,
}

#[derive(Debug, Clone, PartialEq, Eq)]
pub struct PullRequestEvent {
    pub action: PullRequestAction,
    pub pull_request: PullRequest,
    pub changes: Option<Changes>,
    pub repository: Repository,
    /// Present when the action concerns one label, as for `Labeled`.
    pub label: Option<Label>,
}

impl PullRequestEvent {
    /// The event announces a pull request that was closed by being merged.
    /// Only such an event carries a commit worth syncing.
    pub fn is_closed_and_merged(&self) -> (r: bool)
        ensures
            r == (self.action is Closed && self.pull_request.merged),
    {
        matches!(self.action, PullRequestAction::Closed) && self.pull_request.merged
    }
}

#[derive(Debug, Clone, PartialEq, Eq)]
pub struct PullRequestSearchResult {
    pub total_count: usize,
    pub incomplete_results: bool,
    pub items: Vec<PullRequest>,
}

#[derive(Debug, Clone, PartialEq, Eq)]
pub struct Repository {
    pub full_name: String,
}

pub struct Query<'a> {
    pub kind: QueryKind,
    pub filters: Vec<(&'a str, &'a str)>,
    pub include_labels: Vec<&'a str>,
    pub exclude_labels: Vec<&'a str>,
}

pub enum QueryKind {
    List,
    Count,
}

#[derive(Debug, Clone, Copy, PartialEq, Eq, Structural)]
pub enum CreateKind {
    Branch,
    Tag,
}

#[derive(Debug, Clone, PartialEq, Eq)]
pub struct CreateEvent {
    pub ref_type: CreateKind,
    pub repository: Repository,
    pub sender: User,
}

#[derive(Debug, Clone, PartialEq, Eq)]
pub struct PushEvent {
    pub git_ref: String,
    pub repository: Repository,
    pub sender: User,
}

#[derive(Debug, Clone, PartialEq, Eq)]
pub enum Event {
    Create(CreateEvent),
    PullRequestComment(PullRequestCommentEvent),
    PullRequest(PullRequestEvent),
    Push(PushEvent),
}

impl Event {
    /// The full name of the repository the event concerns.
    pub open spec fn spec_repo_name(&self) -> Seq<char> {
        match self {
            Event::Create(event) => event.repository.full_name@,
            Event::PullRequestComment(event) => event.repository.full_name@,
            Event::PullRequest(event) => event.repository.full_name@,
            Event::Push(event) => event.repository.full_name@,
        }
    }

    /// The full name of the repository the event concerns.
    pub fn repo_name(&self) -> (r: &String)
        ensures
            r@ == self.spec_repo_name(),
    {
        match self {
            Event::Create(event) => &event.repository.full_name,
            Event::PullRequestComment(event) => &event.repository.full_name,
            Event::PullRequest(event) => &event.repository.full_name,
            Event::Push(event) => &event.repository.full_name,
        }
    }
}

#[derive(Debug, Clone, PartialEq, Eq)]
pub struct GithubCommit {
    pub sha: String,
    pub message: String,
    pub commit: GitCommit,
    pub parents: Vec<Parent>,
}

#[derive(Debug, Clone, PartialEq, Eq)]
pub struct GitCommit {
    pub author: GitUser,
}

#[derive(Debug, Clone, PartialEq, Eq)]
pub struct GitUser {
    pub date: String,
}

#[derive(Debug, Clone, PartialEq, Eq)]
pub struct Parent {
    pub sha: String,
}

/// The value of the authorization header that authenticated requests carry.
pub fn auth_header_value(token: &str) -> (r: String)
    ensures
        r@ == "token "@ + token@,
{
    crate::strutil::str_concat("token ", token)
}

/// URL of the raw contents of a file of a repository, on a branch.
pub fn raw_file_url(repo: &str, branch: &str, path: &str) -> (r: String)
    ensures
        r@ == "https://raw.githubusercontent.com/"@ + repo@ + "/"@ + branch@ + "/"@ + path@,
{
    let mut s = "https://raw.githubusercontent.com/".to_owned();
    s.append(repo);
    s.append("/");
    s.append(branch);
    s.append("/");
    s.append(path);
    s
}

/// URL of the raw content of one file of a gist, from the URL of the gist's
/// HTML page: the platform's host becomes the raw-content host, and the
/// file's name follows a `/raw/` segment.
pub fn raw_gist_url(html_url: &str, filename: &str) -> (r: String)
    ensures
        r@ == crate::strutil::spec_replace(html_url@, "github.com"@, "githubusercontent.com"@)
            + "/raw/"@ + filename@,
{
    proof {
        reveal_strlit("github.com");
    }
    let mut s = crate::strutil::str_replace(html_url, "github.com", "githubusercontent.com");
    s.append("/raw/");
    s.append(filename);
    s
}

/// What a raw-content response means: the body on success, nothing for a
/// file that is not there, and the offending status for any other answer.
pub fn raw_file_outcome(status: u16, body: Vec<u8>) -> (r: Result<Option<Vec<u8>>, u16>)
    ensures
        status == 200 ==> r == Result::<Option<Vec<u8>>, u16>::Ok(Some(body)),
        status == 404 ==> r == Result::<Option<Vec<u8>>, u16>::Ok(None::<Vec<u8>>),
        status != 200 && status != 404 ==> r == Result::<Option<Vec<u8>>, u16>::Err(status),
{
    if status == 200 {
        Ok(Some(body))
    } else if status == 404 {
        Ok(None)
    } else {
        Err(status)
    }
}

/// Reassembles a body that arrived as a sequence of chunks.
pub fn assemble_body(chunks: &Vec<Vec<u8>>) -> (r: Vec<u8>)
    ensures
        r.deep_view() == spec_concat_bytes(chunks.deep_view()),
{
    let mut out: Vec<u8> = Vec::new();
    let n = chunks.len();
    let mut i: usize = 0;
    while i < n
        invariant
            i <= n,
            n == chunks@.len(),
            n == chunks.deep_view().len(),
            out.deep_view() == spec_concat_bytes(chunks.deep_view().take(i as int)),
        decreases n - i,
    {
        proof {
            assert(chunks.deep_view().take(i + 1).drop_last() =~= chunks.deep_view().take(i as int));
        }
        let ghost prev = out.deep_view();
        out.extend_from_slice(chunks[i].as_slice());
        proof {
            assert(out.deep_view() =~= prev + chunks.deep_view()[i as int]);
        }
        i = i + 1;
    }
    proof {
        assert(chunks.deep_view().take(n as int) =~= chunks.deep_view());
    }
    out
}

/// The concatenation of a sequence of byte strings.
pub open spec fn spec_concat_bytes(chunks: Seq<Seq<u8>>) -> Seq<u8>
    decreases chunks.len(),
{
    if chunks.len() == 0 {
        Seq::empty()
    } else {
        spec_concat_bytes(chunks.drop_last()) + chunks.last()
    }
}

} // verus!
