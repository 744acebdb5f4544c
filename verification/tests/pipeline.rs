use docsbot::config::{Config, ConfigurationError, LabelConfig, RepoConfig, SyncPath,
    get_repo_config};
use docsbot::diff::parse_files_diff;
use docsbot::github::{AssignmentError, Event, Label, PullRequest, PullRequestAction,
    PullRequestEvent, PushEvent, Repository, User};
use docsbot::handlers::HandlerError;
use docsbot::interactions::ErrorComment;
use docsbot::handlers::cherry_pick::{cherry_pick, handle, handle_docs_label, plan_rule,
    working_directory_id};
use docsbot::handlers::{handle_pr_task, task_from_event, TaskQueue};
use docsbot::webhook::{classify_request, response_body, webhook, EventName, RequestClass};

fn sample_user() -> User {
    User { login: "octocat".to_string(), id: Some(1) }
}

fn sample_pr(number: u64, sha: Option<&str>, labels: &[&str], merged: bool) -> PullRequest {
    PullRequest {
        number,
        body: None,
        created_at: "2021-01-01T00:00:00Z".to_string(),
        updated_at: "2021-01-02T00:00:00Z".to_string(),
        merge_commit_sha: sha.map(|s| s.to_string()),
        title: "add docs".to_string(),
        html_url: "https://github.com/chaos-mesh/website/pull/42".to_string(),
        diff_url: "https://github.com/chaos-mesh/website/pull/42.diff".to_string(),
        user: sample_user(),
        labels: labels.iter().map(|l| Label { name: l.to_string() }).collect(),
        assignees: vec![],
        merged,
        comments_url: "https://api.github.com/repos/chaos-mesh/website/issues/42/comments"
            .to_string(),
    }
}

fn sample_event(sha: Option<&str>, labels: &[&str], action: PullRequestAction, merged: bool)
    -> PullRequestEvent {
    PullRequestEvent {
        action,
        pull_request: sample_pr(42, sha, labels, merged),
        changes: None,
        repository: Repository { full_name: "chaos-mesh/website".to_string() },
        label: None,
    }
}

fn sample_config() -> Config {
    Config {
        repos: vec![RepoConfig {
            name: "chaos-mesh/website".to_string(),
            labels: vec![LabelConfig {
                label: "sync-docs".to_string(),
                base_branch: "main".to_string(),
                sync_paths: vec![SyncPath {
                    source_directory: "docs/".to_string(),
                    source_sidebars: "sidebars.json".to_string(),
                    target_directory: "website/docs/".to_string(),
                    target_sidebars: "website/sidebars.json".to_string(),
                }],
            }],
        }],
    }
}

const SHA: &str = "abcdef012345998877665544332211fffeeeddcc";

fn scenario_diff() -> String {
    [
        "diff --git a/docs/intro.md b/docs/intro.md",
        "index 83db48f..bf269f4 100644",
        "--- a/docs/intro.md",
        "+++ b/docs/intro.md",
        "@@ -1 +1 @@",
        "-hello",
        "+hello docs",
        "diff --git a/src/main.rs b/src/main.rs",
        "index 9e1a3c2..0d4f5a6 100644",
        "--- a/src/main.rs",
        "+++ b/src/main.rs",
        "@@ -1 +1 @@",
        "-fn main() {}",
        "+fn main() { run() }",
    ]
    .join("\n")
}

#[test]
fn scenario_merged_pr_with_label_plans_the_full_sync() {
    let config = Ok(sample_config());
    let mut queue = TaskQueue::new();
    let event = sample_event(Some(SHA), &["sync-docs"], PullRequestAction::Closed, true);
    let r = webhook(EventName::PullRequest, Some(event), &config, &mut queue);
    assert_eq!(r, Ok(true));
    assert_eq!(response_body(true), "processed request");
    assert_eq!(queue.len(), 1);

    let task = queue.dequeue().unwrap();
    assert_eq!(task.repository, "chaos-mesh/website");
    assert_eq!(task.number, 42);
    assert_eq!(task.labels, vec!["sync-docs".to_string()]);

    let file_diff = parse_files_diff(&scenario_diff());
    let plans = handle_pr_task(&config, &task, &file_diff);
    assert_eq!(plans.len(), 1);
    let plan = &plans[0];

    // Branch and working directory carry the first twelve characters of the
    // merge commit.
    assert_eq!(plan.sync.branch, "abcdef012345");
    assert_eq!(plan.sync.repo_dir, "abcdef012345");
    assert_eq!(plan.sync.base_branch, "main");
    assert_eq!(plan.sync.remote_url, "https://github.com/chaos-mesh/website");
    assert_eq!(plan.sync.refspec, "refs/heads/abcdef012345:refs/heads/abcdef012345");
    assert_eq!(plan.sync.commit_message, "sync to website/docs/");

    // Only the file inside docs/ is copied, its subpath preserved.
    assert_eq!(plan.sync.copies.len(), 1);
    assert_eq!(plan.sync.copies[0].source, "abcdef012345/docs/intro.md");
    assert_eq!(plan.sync.copies[0].target, "abcdef012345/website/docs/intro.md");

    // The follow-up pull request.
    assert_eq!(plan.settle_delay_secs, 2);
    assert_eq!(plan.create_pr.title, "sync docs to sync-docs");
    assert_eq!(plan.create_pr.head, "abcdef012345");
    assert_eq!(plan.create_pr.base, "main");
    assert!(plan.create_pr.maintainer_can_modify);
}

#[test]
fn scenario_merged_pr_without_merge_commit_is_dropped() {
    let config = Ok(sample_config());
    let mut queue = TaskQueue::new();
    let event = sample_event(None, &["sync-docs"], PullRequestAction::Closed, true);
    let r = webhook(EventName::PullRequest, Some(event), &config, &mut queue);
    assert_eq!(r, Ok(true));
    let task = queue.dequeue().unwrap();
    assert_eq!(task.merge_commit_sha, None);

    // The worker drops the task: no clone is planned and no pull-request
    // creation call follows.
    let file_diff = parse_files_diff(&scenario_diff());
    let plans = handle_pr_task(&config, &task, &file_diff);
    assert!(plans.is_empty());
}

#[test]
fn scenario_unconfigured_repository_is_ignored() {
    let config = Ok(Config { repos: vec![] });
    let mut queue = TaskQueue::new();
    let event = sample_event(Some(SHA), &["sync-docs"], PullRequestAction::Closed, true);
    let r = webhook(EventName::PullRequest, Some(event), &config, &mut queue);
    assert_eq!(r, Ok(false));
    assert_eq!(response_body(false), "ignored request");
    // Nothing was queued: no git work, no API calls can follow.
    assert_eq!(queue.len(), 0);
}

#[test]
fn unmerged_close_is_ignored() {
    let config = Ok(sample_config());
    let mut queue = TaskQueue::new();
    let event = sample_event(Some(SHA), &["sync-docs"], PullRequestAction::Closed, false);
    let r = webhook(EventName::PullRequest, Some(event), &config, &mut queue);
    assert_eq!(r, Ok(false));
    assert_eq!(queue.len(), 0);

    let event = sample_event(Some(SHA), &["sync-docs"], PullRequestAction::Opened, true);
    let r = webhook(EventName::PullRequest, Some(event), &config, &mut queue);
    assert_eq!(r, Ok(false));
    assert_eq!(queue.len(), 0);
}

#[test]
fn other_event_kinds_are_ignored() {
    let config = Ok(sample_config());
    let mut queue = TaskQueue::new();
    let r = webhook(EventName::Push, None, &config, &mut queue);
    assert_eq!(r, Ok(false));
    assert_eq!(queue.len(), 0);
}

#[test]
fn replayed_delivery_builds_the_identical_plan_again() {
    let config = Ok(sample_config());
    let mut queue = TaskQueue::new();
    let event = sample_event(Some(SHA), &["sync-docs"], PullRequestAction::Closed, true);
    let r1 = webhook(EventName::PullRequest, Some(event.clone()), &config, &mut queue);
    let r2 = webhook(EventName::PullRequest, Some(event), &config, &mut queue);
    assert_eq!(r1, Ok(true));
    assert_eq!(r2, Ok(true));
    assert_eq!(queue.len(), 2);

    let first = queue.dequeue().unwrap();
    let second = queue.dequeue().unwrap();
    assert_eq!(first, second);

    let file_diff = parse_files_diff(&scenario_diff());
    let plans1 = handle_pr_task(&config, &first, &file_diff);
    let plans2 = handle_pr_task(&config, &second, &file_diff);
    // The same branch name comes out both times: the second push attempt
    // targets the existing branch and fails cleanly, and no retry follows.
    assert_eq!(plans1, plans2);
    assert_eq!(plans1[0].sync.branch, plans2[0].sync.branch);
}

#[test]
fn rules_not_on_the_pull_request_plan_nothing() {
    let config = Ok(sample_config());
    let task = task_from_event(&sample_event(Some(SHA), &["unrelated"],
        PullRequestAction::Closed, true));
    let file_diff = parse_files_diff(&scenario_diff());
    let plans = handle_pr_task(&config, &task, &file_diff);
    assert!(plans.is_empty());
}

#[test]
fn every_matching_rule_triggers_its_own_sync() {
    let mut config = sample_config();
    config.repos[0].labels.push(LabelConfig {
        label: "sync-guides".to_string(),
        base_branch: "main".to_string(),
        sync_paths: vec![SyncPath {
            source_directory: "docs/".to_string(),
            source_sidebars: String::new(),
            target_directory: "guides/".to_string(),
            target_sidebars: String::new(),
        }],
    });
    let config = Ok(config);
    let task = task_from_event(&sample_event(Some(SHA), &["sync-docs", "sync-guides"],
        PullRequestAction::Closed, true));
    let file_diff = parse_files_diff(&scenario_diff());
    let plans = handle_pr_task(&config, &task, &file_diff);
    assert_eq!(plans.len(), 2);
    assert_eq!(plans[0].create_pr.title, "sync docs to sync-docs");
    assert_eq!(plans[1].create_pr.title, "sync docs to sync-guides");
    assert_eq!(plans[1].sync.copies[0].target, "abcdef012345/guides/intro.md");
}

#[test]
fn worker_drops_task_when_config_lookup_fails() {
    let config: Result<Config, ConfigurationError> = Err(ConfigurationError::NotFound);
    let task = task_from_event(&sample_event(Some(SHA), &["sync-docs"],
        PullRequestAction::Closed, true));
    let file_diff = parse_files_diff(&scenario_diff());
    assert!(handle_pr_task(&config, &task, &file_diff).is_empty());
}

#[test]
fn queue_hands_tasks_out_in_enqueue_order() {
    let mut queue = TaskQueue::new();
    for number in [1u64, 2, 3] {
        let mut event = sample_event(Some(SHA), &["sync-docs"], PullRequestAction::Closed, true);
        event.pull_request.number = number;
        queue.enqueue(task_from_event(&event));
    }
    assert_eq!(queue.len(), 3);
    assert_eq!(queue.dequeue().unwrap().number, 1);
    assert_eq!(queue.dequeue().unwrap().number, 2);
    assert_eq!(queue.dequeue().unwrap().number, 3);
    assert!(queue.dequeue().is_none());
}

#[test]
fn config_lookup_is_by_exact_name_first_match() {
    let mut config = sample_config();
    config.repos.push(RepoConfig { name: "chaos-mesh/website".to_string(), labels: vec![] });
    let found = get_repo_config(&config, "chaos-mesh/website").unwrap();
    // The first entry of that name wins.
    assert_eq!(found.labels.len(), 1);
    let missing = get_repo_config(&config, "chaos-mesh/Website");
    assert!(matches!(missing, Err(ConfigurationError::Missing)));
}

#[test]
fn configuration_error_messages() {
    assert_eq!(ConfigurationError::Missing.message(), "Repo config is not in docsbot.toml");
    assert_eq!(ConfigurationError::NotFound.message(), "docsbot.toml not found");
    assert_eq!(
        ConfigurationError::Toml("bad key".to_string()).message(),
        "Malformed `docsbot.toml` in master branch.\nbad key"
    );
    assert_eq!(
        ConfigurationError::Http("timeout".to_string()).message(),
        "Failed to query configuration for this repository."
    );
}

#[test]
fn plans_cover_only_files_under_the_source_directory() {
    let rule = sample_config().repos[0].labels[0].clone();
    let text = [
        "diff --git a/docs/a/b/deep.md b/docs/a/b/deep.md",
        "--- a/docs/a/b/deep.md",
        "+++ b/docs/a/b/deep.md",
        "@@\n+x",
        "diff --git a/docsx/not.md b/docsx/not.md",
        "--- a/docsx/not.md",
        "+++ b/docsx/not.md",
        "@@\n+y",
        "diff --git a/README.md b/README.md",
        "--- a/README.md",
        "+++ b/README.md",
        "@@\n+z",
    ]
    .join("\n");
    let file_diff = parse_files_diff(&text);
    let plan = cherry_pick("chaos-mesh/website", &rule, &file_diff, "abcdef012345");
    // `docsx/` is not under `docs/`, nor is the top-level file; the nested
    // subpath survives unchanged.
    assert_eq!(plan.copies.len(), 1);
    assert_eq!(plan.copies[0].source, "abcdef012345/docs/a/b/deep.md");
    assert_eq!(plan.copies[0].target, "abcdef012345/website/docs/a/b/deep.md");
}

#[test]
fn working_directory_id_is_the_sha_prefix() {
    assert_eq!(working_directory_id(SHA), "abcdef012345");
}

#[test]
fn docs_label_plan_drops_missing_sha() {
    let rule = sample_config().repos[0].labels[0].clone();
    let pr = sample_pr(42, None, &["sync-docs"], true);
    let file_diff = parse_files_diff(&scenario_diff());
    assert!(handle_docs_label(&rule, &pr, "chaos-mesh/website", &file_diff).is_none());
    let pr = sample_pr(42, Some(SHA), &["sync-docs"], true);
    let plan = handle_docs_label(&rule, &pr, "chaos-mesh/website", &file_diff).unwrap();
    assert_eq!(plan, plan_rule(&rule, "chaos-mesh/website", "abcdef012345", &file_diff));
}

#[test]
fn event_names_parse_and_print() {
    assert_eq!(EventName::parse("pull_request"), EventName::PullRequest);
    assert_eq!(EventName::parse("pull_request_review"), EventName::PullRequestReview);
    assert_eq!(
        EventName::parse("pull_request_review_comment"),
        EventName::PullRequestReviewComment
    );
    assert_eq!(EventName::parse("issue_comment"), EventName::IssueComment);
    assert_eq!(EventName::parse("issues"), EventName::Issue);
    assert_eq!(EventName::parse("push"), EventName::Push);
    assert_eq!(EventName::parse("create"), EventName::Create);
    assert_eq!(EventName::parse("deployment"), EventName::Other);
    assert_eq!(EventName::PullRequest.name(), "pull_request");
    assert_eq!(EventName::Issue.name(), "issues");
    assert_eq!(EventName::Other.name(), "other");
}

#[test]
fn request_classification() {
    assert_eq!(classify_request("GET", "/github-hook", None, true), RequestClass::NotFound);
    assert_eq!(classify_request("POST", "/elsewhere", None, true), RequestClass::NotFound);
    assert_eq!(classify_request("POST", "/github-hook", None, true), RequestClass::MissingHeader);
    assert_eq!(
        classify_request("POST", "/github-hook", Some(None), true),
        RequestClass::HeaderNotUtf8
    );
    assert_eq!(
        classify_request("POST", "/github-hook", Some(Some("push")), false),
        RequestClass::BodyNotUtf8
    );
    assert_eq!(
        classify_request("POST", "/github-hook", Some(Some("pull_request")), true),
        RequestClass::Handle(EventName::PullRequest)
    );
}

#[test]
fn error_messages_for_operators() {
    assert_eq!(AssignmentError::InvalidAssignee.message(), "invalid assignee");
    assert_eq!(AssignmentError::Http("boom".to_string()).message(), "cannot assign: boom");
    assert_eq!(HandlerError::Message("hi".to_string()).message(), "hi");
    assert_eq!(
        HandlerError::Other("secret detail".to_string()).message(),
        "An internal error occurred."
    );
}

#[test]
fn error_comment_carries_its_message() {
    let pr = sample_pr(7, None, &[], false);
    let comment = ErrorComment::new(&pr, "something went wrong".to_string());
    assert_eq!(comment.message, "something went wrong");
    assert_eq!(comment.pull_request.number, 7);
}

#[test]
fn event_dispatch_reads_the_repository_name() {
    let event = Event::Push(PushEvent {
        git_ref: "refs/heads/main".to_string(),
        repository: Repository { full_name: "a/b".to_string() },
        sender: sample_user(),
    });
    assert_eq!(event.repo_name(), "a/b");
    let event = Event::PullRequest(sample_event(None, &[], PullRequestAction::Opened, false));
    assert_eq!(event.repo_name(), "chaos-mesh/website");
}

#[test]
fn closed_and_merged_is_the_acceptance_test() {
    let merged = sample_event(Some(SHA), &[], PullRequestAction::Closed, true);
    assert!(merged.is_closed_and_merged());
    let unmerged = sample_event(Some(SHA), &[], PullRequestAction::Closed, false);
    assert!(!unmerged.is_closed_and_merged());
    let open = sample_event(Some(SHA), &[], PullRequestAction::Opened, true);
    assert!(!open.is_closed_and_merged());
}

#[test]
fn event_level_planning_covers_each_matching_rule() {
    let config = sample_config();
    let event = sample_event(Some(SHA), &["sync-docs", "extra"], PullRequestAction::Closed, true);
    let file_diff = parse_files_diff(&scenario_diff());
    let plans = handle(&config.repos[0], &event, &file_diff);
    assert_eq!(plans.len(), 1);
    assert_eq!(plans[0].sync.branch, "abcdef012345");
    assert_eq!(plans[0].create_pr.title, "sync docs to sync-docs");

    let no_sha = sample_event(None, &["sync-docs"], PullRequestAction::Closed, true);
    assert!(handle(&config.repos[0], &no_sha, &file_diff).is_empty());
}

#[test]
fn copy_strategy_takes_whole_files_not_hunks() {
    // The sync copies the file's final content: two diffs touching the same
    // file with different hunks plan the identical copies.
    let rule = sample_config().repos[0].labels[0].clone();
    let one = parse_files_diff(
        "diff --git a/docs/intro.md b/docs/intro.md\n--- a/docs/intro.md\n+++ b/docs/intro.md\n@@ -1 +1 @@\n-a\n+b",
    );
    let other = parse_files_diff(
        "diff --git a/docs/intro.md b/docs/intro.md\n--- a/docs/intro.md\n+++ b/docs/intro.md\n@@ -9 +9 @@\n-x\n+y\n+z",
    );
    let plan_one = cherry_pick("chaos-mesh/website", &rule, &one, "abcdef012345");
    let plan_other = cherry_pick("chaos-mesh/website", &rule, &other, "abcdef012345");
    assert_eq!(plan_one.copies, plan_other.copies);
    assert_eq!(plan_one.commit_message, plan_other.commit_message);
}
