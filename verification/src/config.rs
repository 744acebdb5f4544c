//! Per-repository sync configuration, and its lookup.
//!
//! Loading and decoding the configuration file is a collaborator's job; the
//! core receives the decoded `Config` value and resolves the entry for one
//! repository by exact name.

use vstd::prelude::*;

verus! {

#[derive(Debug, Clone, PartialEq, Eq)]
pub struct Config {
    pub repos: Vec<RepoConfig>,
}

#[derive(Debug, Clone, PartialEq, Eq)]
pub struct RepoConfig {
    pub name: String,
    pub labels: Vec<LabelConfig>,
}

#[derive(Debug, Clone, PartialEq, Eq)]
pub struct LabelConfig {
    pub label: String,
    pub base_branch: String,
    pub sync_paths: Vec<SyncPath>,
}

#[derive(Debug, Clone, PartialEq, Eq)]
pub struct SyncPath {
    pub source_directory: String,
    pub source_sidebars: String,
    pub target_directory: String,
    pub target_sidebars: String,
}

#[derive(Debug, Clone, PartialEq, Eq)]
pub enum ConfigurationError {
    /// The repository has no entry in the configuration.
    Missing,
    /// The configuration file is not there.
    NotFound,
    /// The configuration file did not decode; the decoder's diagnostic.
    Toml(String),
    /// The configuration could not be fetched; the transport's diagnostic.
    Http(String),
}

impl ConfigurationError {
    /// The diagnostic text of the error.
    pub fn message(&self) -> (r: String)
        ensures
            match self {
                ConfigurationError::Missing => r@ == "Repo config is not in docsbot.toml"@,
                ConfigurationError::NotFound => r@ == "docsbot.toml not found"@,
                ConfigurationError::Toml(e) => r@
                    == "Malformed `docsbot.toml` in master branch.\n"@ + e@,
                ConfigurationError::Http(_) => r@
                    == "Failed to query configuration for this repository."@,
            },
    {
        match self {
            ConfigurationError::Missing => "Repo config is not in docsbot.toml".to_owned(),
            ConfigurationError::NotFound => "docsbot.toml not found".to_owned(),
            ConfigurationError::Toml(e) => crate::strutil::str_concat(
                "Malformed `docsbot.toml` in master branch.\n",
                e.as_str(),
            ),
            ConfigurationError::Http(_) => "Failed to query configuration for this repository.".to_owned(),
        }
    }
}

/// The first configured repository entry named `name`, if any.
pub open spec fn spec_find_repo(repos: Seq<RepoConfig>, name: Seq<char>) -> Option<RepoConfig>
    decreases repos.len(),
{
    if repos.len() == 0 {
        None
    } else if repos[0].name@ == name {
        Some(repos[0])
    } else {
        spec_find_repo(repos.drop_first(), name)
    }
}

proof fn lemma_find_repo_at(repos: Seq<RepoConfig>, name: Seq<char>, i: int)
    requires
        0 <= i < repos.len(),
        forall|j: int| 0 <= j < i ==> (#[trigger] repos[j]).name@ != name,
        repos[i].name@ == name,
    ensures
        spec_find_repo(repos, name) == Some(repos[i]),
    decreases i,
{
    if i > 0 {
        lemma_find_repo_at(repos.drop_first(), name, i - 1);
    }
}

proof fn lemma_find_repo_none(repos: Seq<RepoConfig>, name: Seq<char>)
    requires
        forall|j: int| 0 <= j < repos.len() ==> (#[trigger] repos[j]).name@ != name,
    ensures
        spec_find_repo(repos, name) is None,
    decreases repos.len(),
{
    if repos.len() > 0 {
        lemma_find_repo_none(repos.drop_first(), name);
    }
}

/// Resolves the configuration entry for `repo` by exact name.  Absence is the
/// `Missing` error: the event for an unconfigured repository is dropped, it is
/// not a failure.
pub fn get_repo_config<'a>(config: &'a Config, repo: &str) -> (r: Result<
    &'a RepoConfig,
    ConfigurationError,
>)
    ensures
        match r {
            Ok(c) => spec_find_repo(config.repos@, repo@) == Some(*c),
            Err(e) => spec_find_repo(config.repos@, repo@) is None && e is Missing,
        },
{
    let n = config.repos.len();
    let mut i: usize = 0;
    while i < n
        invariant
            i <= n,
            n == config.repos@.len(),
            forall|j: int| 0 <= j < i ==> (#[trigger] config.repos@[j]).name@ != repo@,
        decreases n - i,
    {
        if crate::strutil::str_eq(config.repos[i].name.as_str(), repo) {
            proof {
                lemma_find_repo_at(config.repos@, repo@, i as int);
            }
            return Ok(&config.repos[i]);
        }
        i = i + 1;
    }
    proof {
        lemma_find_repo_none(config.repos@, repo@);
    }
    Err(ConfigurationError::Missing)
}

} // verus!
