use docsbot::git::{branch_ref, ref_by_branch, CloneError, Git, GitCredential};
use docsbot::github::{assemble_body, auth_header_value, raw_file_outcome, raw_file_url,
    raw_gist_url, Label, PullRequestRepository};
use docsbot::paths::{path_components, strip_components};
use docsbot::strutil::{join_with, split_fields, split_lines, str_concat, str_eq, str_replace,
    str_starts_with};

#[test]
fn refspec_names_both_sides_of_the_branch() {
    assert_eq!(ref_by_branch("abcdef012345"), "refs/heads/abcdef012345:refs/heads/abcdef012345");
    assert_eq!(branch_ref("main"), "refs/heads/main");
}

#[test]
fn git_workspace_holds_credential_and_workdir() {
    let cred = GitCredential::new("bot".to_string(), "secret".to_string());
    assert_eq!(cred.username, "bot");
    assert_eq!(cred.password, "secret");
    let git = Git::new("/tmp/work".to_string(), cred);
    assert_eq!(git.workdir, "/tmp/work");
    assert_eq!(git.clone_destination("abcdef012345"), "/tmp/work/abcdef012345");
}

#[test]
fn clone_error_names_the_remote() {
    let e = CloneError {
        source: "authentication required".to_string(),
        remote_url: "https://github.com/a/b".to_string(),
    };
    assert_eq!(
        e.message(),
        "Cannot clone repository with https://github.com/a/b because of authentication required"
    );
}

#[test]
fn repository_urls() {
    let repo = PullRequestRepository {
        organization: "chaos-mesh".to_string(),
        repository: "website".to_string(),
    };
    assert_eq!(repo.full_name(), "chaos-mesh/website");
    assert_eq!(repo.url(), "https://api.github.com/repos/chaos-mesh/website");
    assert_eq!(
        raw_file_url("chaos-mesh/website", "master", "docsbot.toml"),
        "https://raw.githubusercontent.com/chaos-mesh/website/master/docsbot.toml"
    );
    let label = Label { name: "sync-docs".to_string() };
    assert_eq!(
        label.url_under("https://api.github.com/repos/chaos-mesh/website"),
        "https://api.github.com/repos/chaos-mesh/website/labels/sync-docs"
    );
}

#[test]
fn auth_header_carries_the_token() {
    assert_eq!(auth_header_value("abc123"), "token abc123");
}

#[test]
fn raw_file_responses_classify_by_status() {
    assert_eq!(raw_file_outcome(200, vec![1, 2]), Ok(Some(vec![1, 2])));
    assert_eq!(raw_file_outcome(404, vec![]), Ok(None));
    assert_eq!(raw_file_outcome(500, vec![]), Err(500));
}

#[test]
fn bodies_reassemble_from_chunks() {
    let chunks = vec![vec![1u8, 2], vec![], vec![3, 4, 5]];
    assert_eq!(assemble_body(&chunks), vec![1, 2, 3, 4, 5]);
    assert_eq!(assemble_body(&vec![]), Vec::<u8>::new());
}

#[test]
fn string_helpers() {
    assert!(str_starts_with("diff --git a/x", "diff --git a"));
    assert!(!str_starts_with("diff", "diff --git a"));
    assert!(str_eq("abc", "abc"));
    assert!(!str_eq("abc", "abd"));
    assert_eq!(str_concat("ab", "cd"), "abcd");
}

#[test]
fn line_splitting_matches_line_semantics() {
    assert_eq!(split_lines(""), Vec::<String>::new());
    assert_eq!(split_lines("a"), vec!["a"]);
    assert_eq!(split_lines("a\nb"), vec!["a", "b"]);
    assert_eq!(split_lines("a\nb\n"), vec!["a", "b"]);
    assert_eq!(split_lines("a\n\nb"), vec!["a", "", "b"]);
}

#[test]
fn field_splitting_drops_empty_runs() {
    assert_eq!(split_fields("a/b//c/", '/'), vec!["a", "b", "c"]);
    assert_eq!(split_fields("/a", '/'), vec!["a"]);
    assert_eq!(split_fields("", '/'), Vec::<String>::new());
    assert_eq!(split_fields("diff --git a/x", ' '), vec!["diff", "--git", "a/x"]);
}

#[test]
fn path_components_and_joining() {
    assert_eq!(path_components("docs/a/b.md"), vec!["docs", "a", "b.md"]);
    assert_eq!(path_components("docs/"), vec!["docs"]);
    let parts = vec!["x".to_string(), "y".to_string(), "z.md".to_string()];
    assert_eq!(join_with(&parts, "/"), "x/y/z.md");
    assert_eq!(join_with(&Vec::new(), "/"), "");
}

#[test]
fn stripping_a_directory_prefix_is_component_wise() {
    assert_eq!(strip_components("docs/intro.md", "docs/"), Some(vec!["intro.md".to_string()]));
    assert_eq!(strip_components("docs/a/b.md", "docs"), Some(vec!["a".to_string(),
        "b.md".to_string()]));
    // `docsx` does not lie under `docs`, a string prefix notwithstanding.
    assert_eq!(strip_components("docsx/not.md", "docs/"), None);
    assert_eq!(strip_components("src/main.rs", "docs/"), None);
    assert_eq!(strip_components("docs", "docs/"), Some(vec![]));
}

#[test]
fn replacement_rewrites_every_occurrence() {
    assert_eq!(str_replace("github.com and github.com", "github.com", "example.org"),
        "example.org and example.org");
    assert_eq!(str_replace("abc", "x", "y"), "abc");
    assert_eq!(str_replace("aaaa", "aa", "b"), "bb");
    assert_eq!(str_replace("", "x", "y"), "");
}

#[test]
fn gist_raw_url_moves_to_the_raw_content_host() {
    assert_eq!(
        raw_gist_url("https://gist.github.com/rust-play/7e80ca3b1ec7abe08f60c41aff91f060",
            "main.rs"),
        "https://gist.githubusercontent.com/rust-play/7e80ca3b1ec7abe08f60c41aff91f060/raw/main.rs"
    );
}
