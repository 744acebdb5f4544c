//! Dispatching inbound events and working off the queued tasks.
//!
//! The dispatcher runs within the request: it resolves the repository's
//! configuration, keeps only pull requests that were closed by being merged,
//! and enqueues a task.  A single worker consumes the queue in order, one
//! task at a time, re-resolves the configuration, and plans the syncs; the
//! surrounding binary executes each plan's git work.

use vstd::prelude::*;
use crate::config::{Config, ConfigurationError, spec_find_repo, get_repo_config};
use crate::github::{Event, Label, PullRequestEvent};
use crate::handlers::cherry_pick::{DocsLabelPlan, spec_plan_ok, spec_matching_rules_by_name,
    plan_rule, rule_matched_by_name};
use crate::strutil::lemma_take_step;

pub mod cherry_pick;

verus! {

/// What went wrong while handling an event.
#[derive(Debug, Clone, PartialEq, Eq)]
pub enum HandlerError {
    /// A message meant for the operator.
    Message(String),
    /// An internal failure; its diagnostic stays in the log.
    Other(String),
}

impl HandlerError {
    /// The text shown for the error.
    pub fn message(&self) -> (r: String)
        ensures
            match self {
                HandlerError::Message(msg) => r@ == msg@,
                HandlerError::Other(_) => r@ == "An internal error occurred."@,
            },
    {
        match self {
            HandlerError::Message(msg) => msg.clone(),
            HandlerError::Other(_) => "An internal error occurred.".to_owned(),
        }
    }
}

/// One accepted pull-request event, queued for the worker.
#[derive(Debug, Clone, PartialEq, Eq)]
pub struct PullRequestTask {
    /// The repository's full name.
    pub repository: String,
    /// The pull request's number.
    pub number: u64,
    /// The merge commit, absent under some merge strategies.
    pub merge_commit_sha: Option<String>,
    /// Where the pull request's diff is fetched from.
    pub diff_url: String,
    /// The names of the labels on the pull request.
    pub labels: Vec<String>,
}

/// The task's merge commit as a sequence of characters, if present.
pub open spec fn spec_sha_view(sha: Option<String>) -> Option<Seq<char>> {
    match sha {
        Some(s) => Some(s@),
        None => None,
    }
}

/// The task the dispatcher builds from an accepted event.
pub open spec fn spec_task_matches(task: PullRequestTask, e: PullRequestEvent) -> bool {
    &&& task.repository@ == e.repository.full_name@
    &&& task.number == e.pull_request.number
    &&& spec_sha_view(task.merge_commit_sha) == spec_sha_view(e.pull_request.merge_commit_sha)
    &&& task.diff_url@ == e.pull_request.diff_url@
    &&& task.labels.deep_view() == e.pull_request.labels@.map_values(|l: Label| l.name@)
}

/// Builds the worker's task from an accepted event.
pub fn task_from_event(e: &PullRequestEvent) -> (task: PullRequestTask)
    ensures
        spec_task_matches(task, *e),
{
    let sha = match &e.pull_request.merge_commit_sha {
        Some(s) => Some(s.clone()),
        None => None,
    };
    let mut labels: Vec<String> = Vec::new();
    let n = e.pull_request.labels.len();
    let mut i: usize = 0;
    while i < n
        invariant
            i <= n,
            n == e.pull_request.labels@.len(),
            labels.deep_view() == e.pull_request.labels@.take(i as int).map_values(
                |l: Label| l.name@,
            ),
        decreases n - i,
    {
        let ghost prev = labels.deep_view();
        labels.push(e.pull_request.labels[i].name.clone());
        proof {
            assert(labels.deep_view() =~~= prev.push(e.pull_request.labels@[i as int].name@));
            assert(e.pull_request.labels@.take(i + 1).map_values(|l: Label| l.name@)
                =~~= e.pull_request.labels@.take(i as int).map_values(|l: Label| l.name@).push(
                e.pull_request.labels@[i as int].name@,
            ));
        }
        i = i + 1;
    }
    proof {
        assert(e.pull_request.labels@.take(n as int) =~= e.pull_request.labels@);
    }
    PullRequestTask {
        repository: e.repository.full_name.clone(),
        number: e.pull_request.number,
        merge_commit_sha: sha,
        diff_url: e.pull_request.diff_url.clone(),
        labels,
    }
}

/// The first-in-first-out queue between the dispatcher and the worker.  The
/// dispatcher appends at the back within the request; the single worker takes
/// from the front, so tasks run in strict enqueue order.
#[derive(Debug)]
pub struct TaskQueue {
    items: Vec<PullRequestTask>,
}

impl View for TaskQueue {
    type V = Seq<PullRequestTask>;

    closed spec fn view(&self) -> Seq<PullRequestTask> {
        self.items@
    }
}

impl TaskQueue {
    /// An empty queue.
    pub fn new() -> (q: TaskQueue)
        ensures
            q@ == Seq::<PullRequestTask>::empty(),
    {
        TaskQueue { items: Vec::new() }
    }

    /// How many tasks wait.
    pub fn len(&self) -> (n: usize)
        ensures
            n == self@.len(),
    {
        self.items.len()
    }

    /// Appends a task at the back.
    pub fn enqueue(&mut self, task: PullRequestTask)
        ensures
            final(self)@ == old(self)@.push(task),
    {
        self.items.push(task);
    }

    /// Takes the task that has waited longest: the front one; the tasks
    /// behind it keep their order.
    pub fn dequeue(&mut self) -> (r: Option<PullRequestTask>)
        ensures
            match r {
                Some(task) => old(self)@.len() > 0 && task == old(self)@[0] && final(self)@ == old(
                    self,
                )@.drop_first(),
                None => old(self)@.len() == 0 && final(self)@ == old(self)@,
            },
    {
        if self.items.len() == 0 {
            None
        } else {
            let task = self.items.remove(0);
            proof {
                assert(self.items@ =~= old(self)@.drop_first());
            }
            Some(task)
        }
    }
}

/// What the dispatcher did with an event.
#[derive(Debug, Clone, Copy, PartialEq, Eq, Structural)]
pub enum DispatchOutcome {
    /// A task was handed to the queue.
    Enqueued,
    /// The event was dropped: unconfigured repository, an event other than a
    /// pull request, or a pull request not closed by being merged.
    Ignored,
}

/// The dispatcher accepts an event exactly when its repository is configured
/// and it announces a pull request closed by being merged.
pub open spec fn spec_accepted(
    config_result: Result<Config, ConfigurationError>,
    event: Event,
) -> bool {
    &&& config_result matches Ok(config) && spec_find_repo(
        config.repos@,
        event.spec_repo_name(),
    ) is Some
    &&& event matches Event::PullRequest(e) && e.action is Closed && e.pull_request.merged
}

/// Dispatches one event: resolves the repository's configuration, and
/// enqueues a task exactly for a pull request closed by being merged in a
/// configured repository.  No git or API work happens here.
pub fn handle(
    config_result: &Result<Config, ConfigurationError>,
    event: &Event,
    queue: &mut TaskQueue,
) -> (r: (Vec<HandlerError>, DispatchOutcome))
    ensures
        r.1 is Enqueued <==> spec_accepted(*config_result, *event),
        spec_accepted(*config_result, *event) ==> final(queue)@ == old(queue)@.push(
            final(queue)@.last(),
        ),
        !spec_accepted(*config_result, *event) ==> final(queue)@ == old(queue)@,
        event matches Event::PullRequest(e) ==> (spec_accepted(*config_result, *event)
            ==> spec_task_matches(final(queue)@.last(), *e)),
        r.0@.len() > 0 <==> (config_result matches Err(e) && !(e is Missing)),
        forall|k: int| 0 <= k < r.0@.len() ==> #[trigger] r.0@[k] is Message,
{
    let mut errors: Vec<HandlerError> = Vec::new();
    let config = match config_result {
        Ok(c) => c,
        Err(e) => {
            match e {
                ConfigurationError::Missing => {
                    return (errors, DispatchOutcome::Ignored);
                },
                _ => {
                    errors.push(HandlerError::Message(e.message()));
                    return (errors, DispatchOutcome::Ignored);
                },
            }
        },
    };
    match get_repo_config(config, event.repo_name().as_str()) {
        Ok(_repo_config) => {
            match event {
                Event::PullRequest(e) => {
                    if e.is_closed_and_merged() {
                        let task = task_from_event(e);
                        queue.enqueue(task);
                        proof {
                            assert(final(queue)@.last() == final(queue)@[final(queue)@.len() - 1]);
                        }
                        (errors, DispatchOutcome::Enqueued)
                    } else {
                        (errors, DispatchOutcome::Ignored)
                    }
                },
                _ => (errors, DispatchOutcome::Ignored),
            }
        },
        Err(_missing) => (errors, DispatchOutcome::Ignored),
    }
}

/// Works off one dequeued task: re-resolves the repository's configuration —
/// it may have changed since enqueue — and plans one sync per configured rule
/// whose label the task carries.  A failed lookup, or a task without a merge
/// commit, drops the task: no plans, no retry.
pub fn handle_pr_task(
    config_result: &Result<Config, ConfigurationError>,
    task: &PullRequestTask,
    file_diff: &crate::diff::DiffFileMap,
) -> (r: Vec<DocsLabelPlan>)
    requires
        task.merge_commit_sha matches Some(s) ==> s@.len() >= 12,
    ensures
        config_result is Err ==> r@.len() == 0,
        config_result matches Ok(config) ==> (spec_find_repo(config.repos@, task.repository@)
            is None ==> r@.len() == 0),
        task.merge_commit_sha is None ==> r@.len() == 0,
        config_result matches Ok(config) ==> (task.merge_commit_sha matches Some(s) ==> (
        spec_find_repo(config.repos@, task.repository@) matches Some(rc) ==> {
            let m = spec_matching_rules_by_name(rc.labels@, task.labels.deep_view());
            &&& r@.len() == m.len()
            &&& forall|k: int|
                0 <= k < m.len() ==> spec_plan_ok(
                    #[trigger] r@[k],
                    m[k],
                    task.repository@,
                    s@.subrange(0, 12),
                    file_diff@,
                )
        })),
{
    let mut out: Vec<DocsLabelPlan> = Vec::new();
    let config = match config_result {
        Ok(c) => c,
        Err(_) => {
            return out;
        },
    };
    let repo_config = match get_repo_config(config, task.repository.as_str()) {
        Ok(rc) => rc,
        Err(_) => {
            return out;
        },
    };
    let sha = match &task.merge_commit_sha {
        Some(s) => s,
        None => {
            return out;
        },
    };
    let target = crate::handlers::cherry_pick::working_directory_id(sha.as_str());
    let n = repo_config.labels.len();
    let mut i: usize = 0;
    while i < n
        invariant
            i <= n,
            n == repo_config.labels@.len(),
            target@ == sha@.subrange(0, 12),
            ({
                let m = spec_matching_rules_by_name(repo_config.labels@.take(i as int),
                    task.labels.deep_view());
                &&& out@.len() == m.len()
                &&& forall|k: int|
                    0 <= k < m.len() ==> spec_plan_ok(
                        #[trigger] out@[k],
                        m[k],
                        task.repository@,
                        sha@.subrange(0, 12),
                        file_diff@,
                    )
            }),
        decreases n - i,
    {
        proof {
            lemma_take_step(repo_config.labels@, i as int);
        }
        let rule = &repo_config.labels[i];
        if rule_matched_by_name(&task.labels, rule.label.as_str()) {
            let plan = plan_rule(rule, task.repository.as_str(), target.as_str(), file_diff);
            out.push(plan);
        }
        i = i + 1;
    }
    proof {
        assert(repo_config.labels@.take(n as int) =~= repo_config.labels@);
    }
    out
}

} // verus!
