//! Planning the documentation cherry-pick for a merged pull request.
//!
//! For each configured label the pull request carries, the planner names the
//! working directory and branch (the first twelve characters of the merge
//! commit), lists exactly which files are copied where, and words the commit
//! message and the follow-up pull request.  The surrounding binary clones,
//! copies, commits, pushes and posts precisely what the plan says.

use vstd::prelude::*;
use crate::config::{LabelConfig, RepoConfig, SyncPath};
use crate::diff::DiffFileMap;
use crate::github::{Label, PullRequest, PullRequestEvent};
use crate::paths::{spec_components, spec_path_under, spec_strip_components, strip_components,
    path_components, components_to_path};
use crate::strutil::{spec_join, str_concat, lemma_take_step};
use crate::git::ref_by_branch;

verus! {

/// One file copy of a sync: both sides relative to the process working
/// directory.
#[derive(Debug, Clone, PartialEq, Eq)]
pub struct CopyOp {
    pub source: String,
    pub target: String,
}

/// Everything the git side of one sync does, as data.
#[derive(Debug, Clone, PartialEq, Eq)]
pub struct SyncPlan {
    /// The ephemeral directory the repository is cloned into.
    pub repo_dir: String,
    /// The HTTPS remote of the repository.
    pub remote_url: String,
    /// The branch the new branch is based on.
    pub base_branch: String,
    /// The new branch; named like the working directory.
    pub branch: String,
    /// The file copies, in diff order, sync path by sync path.
    pub copies: Vec<CopyOp>,
    /// The message of the commit holding the copies.
    pub commit_message: String,
    /// The refspec pushing the new branch to `origin`.
    pub refspec: String,
}

/// The follow-up pull request, as the creation call's payload.
#[derive(Debug, Clone, PartialEq, Eq)]
pub struct CreatePullRequest {
    pub title: String,
    pub head: String,
    pub base: String,
    pub maintainer_can_modify: bool,
}

/// The whole of what one matching label rule asks for: the git sync, a
/// settle delay, then the pull-request creation.
#[derive(Debug, Clone, PartialEq, Eq)]
pub struct DocsLabelPlan {
    pub sync: SyncPlan,
    pub settle_delay_secs: u64,
    pub create_pr: CreatePullRequest,
}

/// The copies as pairs of character sequences.
pub open spec fn copies_view(cs: Seq<CopyOp>) -> Seq<(Seq<char>, Seq<char>)> {
    cs.map_values(|c: CopyOp| (c.source@, c.target@))
}

/// Where a changed file sits in the fresh clone.
pub open spec fn spec_source_path(rd: Seq<char>, p: Seq<char>) -> Seq<char> {
    spec_join(spec_components(rd) + spec_components(p), seq!['/'])
}

/// Where a changed file is copied to: the same subpath, under the sync
/// path's target directory, in the fresh clone.
pub open spec fn spec_target_path(rd: Seq<char>, sp: SyncPath, p: Seq<char>) -> Seq<char> {
    spec_join(
        spec_components(rd) + spec_components(sp.target_directory@) + spec_strip_components(
            p,
            sp.source_directory@,
        ),
        seq!['/'],
    )
}

/// The copies one sync path asks for: one per diff entry lying under its
/// source directory, in diff order.
pub open spec fn spec_copies_for_sync_path(
    dm: Seq<(Seq<char>, Seq<char>)>,
    sp: SyncPath,
    rd: Seq<char>,
) -> Seq<(Seq<char>, Seq<char>)>
    decreases dm.len(),
{
    if dm.len() == 0 {
        Seq::empty()
    } else {
        let rest = spec_copies_for_sync_path(dm.drop_last(), sp, rd);
        let e = dm.last();
        if spec_path_under(e.0, sp.source_directory@) {
            rest.push((spec_source_path(rd, e.0), spec_target_path(rd, sp, e.0)))
        } else {
            rest
        }
    }
}

/// The copies a whole rule asks for, sync path by sync path.
pub open spec fn spec_plan_copies(
    dm: Seq<(Seq<char>, Seq<char>)>,
    sps: Seq<SyncPath>,
    rd: Seq<char>,
) -> Seq<(Seq<char>, Seq<char>)>
    decreases sps.len(),
{
    if sps.len() == 0 {
        Seq::empty()
    } else {
        spec_plan_copies(dm, sps.drop_last(), rd) + spec_copies_for_sync_path(dm, sps.last(), rd)
    }
}

/// The sync commit's message: it names the rule's first target directory.
pub open spec fn spec_commit_message(config: LabelConfig) -> Seq<char> {
    "sync to "@ + if config.sync_paths@.len() > 0 {
        config.sync_paths@[0].target_directory@
    } else {
        Seq::<char>::empty()
    }
}

/// The files of the diff lying under a directory, in diff order.
pub open spec fn spec_files_under(dm: Seq<(Seq<char>, Seq<char>)>, dir: Seq<char>) -> Seq<
    Seq<char>,
>
    decreases dm.len(),
{
    if dm.len() == 0 {
        Seq::empty()
    } else {
        let rest = spec_files_under(dm.drop_last(), dir);
        if spec_path_under(dm.last().0, dir) {
            rest.push(dm.last().0)
        } else {
            rest
        }
    }
}

/// The copies of one sync path are exactly the diff's files under its source
/// directory, in diff order — no other file is copied — each carried from
/// its place in the clone to the corresponding place under the target
/// directory.
pub proof fn lemma_sync_copies_characterized(
    dm: Seq<(Seq<char>, Seq<char>)>,
    sp: SyncPath,
    rd: Seq<char>,
)
    ensures
        spec_copies_for_sync_path(dm, sp, rd) == spec_files_under(
            dm,
            sp.source_directory@,
        ).map_values(|p: Seq<char>| (spec_source_path(rd, p), spec_target_path(rd, sp, p))),
    decreases dm.len(),
{
    let f = |p: Seq<char>| (spec_source_path(rd, p), spec_target_path(rd, sp, p));
    if dm.len() == 0 {
        assert(spec_copies_for_sync_path(dm, sp, rd) =~= spec_files_under(
            dm,
            sp.source_directory@,
        ).map_values(f));
    } else {
        lemma_sync_copies_characterized(dm.drop_last(), sp, rd);
        if spec_path_under(dm.last().0, sp.source_directory@) {
            assert(spec_files_under(dm, sp.source_directory@).map_values(f) =~= spec_files_under(
                dm.drop_last(),
                sp.source_directory@,
            ).map_values(f).push(f(dm.last().0)));
        }
    }
}

/// A copied file's place under the target directory preserves its subpath
/// under the source directory: the target's components are the working
/// directory's, then the target directory's, then exactly the components the
/// file had past the source directory.
pub proof fn lemma_target_path_components(rd: Seq<char>, sp: SyncPath, p: Seq<char>)
    requires
        spec_path_under(p, sp.source_directory@),
    ensures
        spec_components(spec_target_path(rd, sp, p)) == spec_components(rd) + spec_components(
            sp.target_directory@,
        ) + spec_strip_components(p, sp.source_directory@),
        spec_components(p) == spec_components(sp.source_directory@) + spec_strip_components(
            p,
            sp.source_directory@,
        ),
{
    crate::strutil::lemma_fields_wf(rd, '/');
    crate::strutil::lemma_fields_wf(sp.target_directory@, '/');
    crate::strutil::lemma_fields_wf(p, '/');
    let m = spec_components(sp.source_directory@).len() as int;
    let strip = spec_strip_components(p, sp.source_directory@);
    let parts = spec_components(rd) + spec_components(sp.target_directory@) + strip;
    assert(forall|k: int|
        0 <= k < strip.len() ==> strip[k] == spec_components(p)[m + k]);
    assert forall|k: int| 0 <= k < parts.len() implies (#[trigger] parts[k]).len() > 0
        && !parts[k].contains('/') by {
        let a = spec_components(rd).len() as int;
        let b = spec_components(sp.target_directory@).len() as int;
        if k < a {
            assert(parts[k] == spec_components(rd)[k]);
        } else if k < a + b {
            assert(parts[k] == spec_components(sp.target_directory@)[k - a]);
        } else {
            assert(parts[k] == spec_components(p)[m + (k - a - b)]);
        }
    }
    crate::strutil::lemma_fields_of_join(parts, '/');
    assert(spec_components(spec_target_path(rd, sp, p)) == parts);
    assert(spec_components(p).take(m) == spec_components(sp.source_directory@));
    assert(spec_components(p) =~= spec_components(p).take(m) + spec_components(p).skip(m));
}

/// Planning is a function of its inputs: two plans drawn up for the same
/// rule, repository, working directory and diff agree on every branch name,
/// path, message and payload the binary goes on to execute.  Replaying a
/// delivery therefore re-creates the same branch name, and the platform
/// rejects the duplicate branch; nothing new is pushed.
pub proof fn lemma_plan_determined(
    p1: DocsLabelPlan,
    p2: DocsLabelPlan,
    rule: LabelConfig,
    repo_name: Seq<char>,
    wid: Seq<char>,
    dm: Seq<(Seq<char>, Seq<char>)>,
)
    requires
        spec_plan_ok(p1, rule, repo_name, wid, dm),
        spec_plan_ok(p2, rule, repo_name, wid, dm),
    ensures
        p1.sync.repo_dir@ == p2.sync.repo_dir@,
        p1.sync.branch@ == p2.sync.branch@,
        p1.sync.remote_url@ == p2.sync.remote_url@,
        p1.sync.base_branch@ == p2.sync.base_branch@,
        p1.sync.commit_message@ == p2.sync.commit_message@,
        p1.sync.refspec@ == p2.sync.refspec@,
        copies_view(p1.sync.copies@) == copies_view(p2.sync.copies@),
        p1.settle_delay_secs == p2.settle_delay_secs,
        p1.create_pr.title@ == p2.create_pr.title@,
        p1.create_pr.head@ == p2.create_pr.head@,
        p1.create_pr.base@ == p2.create_pr.base@,
        p1.create_pr.maintainer_can_modify == p2.create_pr.maintainer_can_modify,
{
}

/// The working directory and branch name: the first twelve characters of the
/// merge commit.
pub fn working_directory_id(sha: &str) -> (r: String)
    requires
        sha@.len() >= 12,
    ensures
        r@ == sha@.subrange(0, 12),
{
    String::from_str(sha.substring_char(0, 12))
}

/// Plans the git side of one sync: clone under the branch name, branch off
/// the rule's base branch, copy every changed file under a sync path's
/// source directory to its target, commit, push.
pub fn cherry_pick(
    repo_name: &str,
    config: &LabelConfig,
    file_diff: &DiffFileMap,
    target_branch: &str,
) -> (r: SyncPlan)
    ensures
        r.repo_dir@ == target_branch@,
        r.branch@ == target_branch@,
        r.base_branch@ == config.base_branch@,
        r.remote_url@ == "https://github.com/"@ + repo_name@,
        r.refspec@ == "refs/heads/"@ + target_branch@ + ":refs/heads/"@ + target_branch@,
        r.commit_message@ == spec_commit_message(*config),
        copies_view(r.copies@) == spec_plan_copies(file_diff@, config.sync_paths@, target_branch@),
{
    let ghost dm = file_diff@;
    let mut copies: Vec<CopyOp> = Vec::new();
    let nsp = config.sync_paths.len();
    let mut si: usize = 0;
    while si < nsp
        invariant
            si <= nsp,
            nsp == config.sync_paths@.len(),
            dm == file_diff@,
            dm.len() == file_diff.entries@.len(),
            copies_view(copies@) == spec_plan_copies(dm, config.sync_paths@.take(si as int),
                target_branch@),
        decreases nsp - si,
    {
        proof {
            lemma_take_step(config.sync_paths@, si as int);
        }
        let sp = &config.sync_paths[si];
        let ne = file_diff.entries.len();
        let mut ei: usize = 0;
        while ei < ne
            invariant
                ei <= ne,
                ne == file_diff.entries@.len(),
                dm == file_diff@,
                dm.len() == ne,
                sp == &config.sync_paths@[si as int],
                si < nsp,
                nsp == config.sync_paths@.len(),
                copies_view(copies@) == spec_plan_copies(dm, config.sync_paths@.take(si as int),
                    target_branch@) + spec_copies_for_sync_path(dm.take(ei as int), *sp,
                    target_branch@),
            decreases ne - ei,
        {
            proof {
                lemma_take_step(dm, ei as int);
                assert(dm[ei as int].0 == file_diff.entries@[ei as int].path@);
            }
            let entry_path = file_diff.entries[ei].path.as_str();
            match strip_components(entry_path, sp.source_directory.as_str()) {
                Some(suffix) => {
                    let mut sc = path_components(target_branch);
                    let mut pc = path_components(entry_path);
                    let ghost sc0 = sc.deep_view();
                    let ghost pc0 = pc.deep_view();
                    sc.append(&mut pc);
                    proof {
                        assert(sc.deep_view() =~= sc0 + pc0);
                    }
                    let source = components_to_path(&sc);
                    let mut tc = path_components(target_branch);
                    let mut tdc = path_components(sp.target_directory.as_str());
                    let mut sfx = suffix;
                    let ghost tc0 = tc.deep_view();
                    let ghost tdc0 = tdc.deep_view();
                    let ghost sfx0 = sfx.deep_view();
                    tc.append(&mut tdc);
                    proof {
                        assert(tc.deep_view() =~= tc0 + tdc0);
                    }
                    let ghost tc1 = tc.deep_view();
                    tc.append(&mut sfx);
                    proof {
                        assert(tc.deep_view() =~= tc1 + sfx0);
                        assert(tc.deep_view() =~= tc0 + tdc0 + sfx0);
                    }
                    let target = components_to_path(&tc);
                    let ghost prev = copies_view(copies@);
                    copies.push(CopyOp { source, target });
                    proof {
                        assert(copies_view(copies@) =~= prev.push(
                            (spec_source_path(target_branch@, dm[ei as int].0), spec_target_path(
                                target_branch@,
                                *sp,
                                dm[ei as int].0,
                            )),
                        ));
                    }
                },
                None => {
                },
            }
            ei = ei + 1;
        }
        proof {
            assert(dm.take(ne as int) =~= dm);
        }
        si = si + 1;
    }
    proof {
        assert(config.sync_paths@.take(nsp as int) =~= config.sync_paths@);
    }
    let commit_message = if config.sync_paths.len() > 0 {
        str_concat("sync to ", config.sync_paths[0].target_directory.as_str())
    } else {
        let m = "sync to ".to_owned();
        proof {
            assert(m@ =~= "sync to "@ + Seq::<char>::empty());
        }
        m
    };
    SyncPlan {
        repo_dir: String::from_str(target_branch),
        remote_url: str_concat("https://github.com/", repo_name),
        base_branch: config.base_branch.clone(),
        branch: String::from_str(target_branch),
        copies,
        commit_message,
        refspec: ref_by_branch(target_branch),
    }
}

/// Everything a plan of one rule must say, given the repository, the working
/// directory name, and the diff.
pub open spec fn spec_plan_ok(
    plan: DocsLabelPlan,
    rule: LabelConfig,
    repo_name: Seq<char>,
    wid: Seq<char>,
    dm: Seq<(Seq<char>, Seq<char>)>,
) -> bool {
    &&& plan.sync.repo_dir@ == wid
    &&& plan.sync.branch@ == wid
    &&& plan.sync.base_branch@ == rule.base_branch@
    &&& plan.sync.remote_url@ == "https://github.com/"@ + repo_name
    &&& plan.sync.refspec@ == "refs/heads/"@ + wid + ":refs/heads/"@ + wid
    &&& plan.sync.commit_message@ == spec_commit_message(rule)
    &&& copies_view(plan.sync.copies@) == spec_plan_copies(dm, rule.sync_paths@, wid)
    &&& plan.settle_delay_secs == 2
    &&& plan.create_pr.title@ == "sync docs to "@ + rule.label@
    &&& plan.create_pr.head@ == wid
    &&& plan.create_pr.base@ == rule.base_branch@
    &&& plan.create_pr.maintainer_can_modify == true
}

/// Plans everything one rule asks for, for a working directory already
/// named: the git sync, the settle delay, and the follow-up pull request.
pub fn plan_rule(
    config: &LabelConfig,
    repo_name: &str,
    target: &str,
    file_diff: &DiffFileMap,
) -> (r: DocsLabelPlan)
    ensures
        spec_plan_ok(r, *config, repo_name@, target@, file_diff@),
{
    let sync = cherry_pick(repo_name, config, file_diff, target);
    let create_pr = CreatePullRequest {
        title: str_concat("sync docs to ", config.label.as_str()),
        head: String::from_str(target),
        base: config.base_branch.clone(),
        maintainer_can_modify: true,
    };
    DocsLabelPlan { sync, settle_delay_secs: 2, create_pr }
}

/// Plans the sync one label rule asks of a merged pull request.  A pull
/// request without a merge commit is dropped: no clone, no copies, no
/// pull-request creation.
pub fn handle_docs_label(
    config: &LabelConfig,
    pr_request: &PullRequest,
    repo_name: &str,
    file_diff: &DiffFileMap,
) -> (r: Option<DocsLabelPlan>)
    requires
        pr_request.merge_commit_sha matches Some(s) ==> s@.len() >= 12,
    ensures
        match pr_request.merge_commit_sha {
            None => r is None,
            Some(s) => r matches Some(plan) && spec_plan_ok(
                plan,
                *config,
                repo_name@,
                s@.subrange(0, 12),
                file_diff@,
            ),
        },
{
    let sha = match &pr_request.merge_commit_sha {
        Some(s) => s,
        None => {
            return None;
        },
    };
    let target = working_directory_id(sha.as_str());
    Some(plan_rule(config, repo_name, target.as_str(), file_diff))
}

/// The pull request carries a label of this name.
pub open spec fn spec_has_label(labels: Seq<Label>, name: Seq<char>) -> bool {
    exists|i: int| 0 <= i < labels.len() && (#[trigger] labels[i]).name@ == name
}

/// Whether the pull request carries a label of this name.
pub fn has_label(labels: &Vec<Label>, name: &str) -> (r: bool)
    ensures
        r == spec_has_label(labels@, name@),
{
    let n = labels.len();
    let mut i: usize = 0;
    while i < n
        invariant
            i <= n,
            n == labels@.len(),
            forall|j: int| 0 <= j < i ==> (#[trigger] labels@[j]).name@ != name@,
        decreases n - i,
    {
        if crate::strutil::str_eq(labels[i].name.as_str(), name) {
            assert(spec_has_label(labels@, name@));
            return true;
        }
        i = i + 1;
    }
    false
}

/// The rules of the configuration whose label the pull request carries, in
/// configuration order.
pub open spec fn spec_matching_rules(rules: Seq<LabelConfig>, labels: Seq<Label>) -> Seq<
    LabelConfig,
>
    decreases rules.len(),
{
    if rules.len() == 0 {
        Seq::empty()
    } else {
        let rest = spec_matching_rules(rules.drop_last(), labels);
        if spec_has_label(labels, rules.last().label@) {
            rest.push(rules.last())
        } else {
            rest
        }
    }
}

/// The list of names contains this name.
pub open spec fn spec_has_name(names: Seq<Seq<char>>, name: Seq<char>) -> bool {
    exists|i: int| 0 <= i < names.len() && #[trigger] names[i] == name
}

/// Whether the task's label names contain this rule's label.
pub fn rule_matched_by_name(names: &Vec<String>, name: &str) -> (r: bool)
    ensures
        r == spec_has_name(names.deep_view(), name@),
{
    let n = names.len();
    let mut i: usize = 0;
    while i < n
        invariant
            i <= n,
            n == names@.len(),
            n == names.deep_view().len(),
            forall|j: int| 0 <= j < i ==> #[trigger] names.deep_view()[j] != name@,
        decreases n - i,
    {
        proof {
            assert(names.deep_view()[i as int] == names@[i as int]@);
        }
        if crate::strutil::str_eq(names[i].as_str(), name) {
            assert(spec_has_name(names.deep_view(), name@));
            return true;
        }
        i = i + 1;
    }
    false
}

/// The rules whose label is among the task's label names, in configuration
/// order.
pub open spec fn spec_matching_rules_by_name(rules: Seq<LabelConfig>, names: Seq<Seq<char>>) -> Seq<
    LabelConfig,
>
    decreases rules.len(),
{
    if rules.len() == 0 {
        Seq::empty()
    } else {
        let rest = spec_matching_rules_by_name(rules.drop_last(), names);
        if spec_has_name(names, rules.last().label@) {
            rest.push(rules.last())
        } else {
            rest
        }
    }
}

/// Plans the syncs a merged pull request asks for: one per configured rule
/// whose label it carries, each rule triggering independently.
pub fn handle(config: &RepoConfig, pr: &PullRequestEvent, file_diff: &DiffFileMap) -> (r: Vec<
    DocsLabelPlan,
>)
    requires
        pr.pull_request.merge_commit_sha matches Some(s) ==> s@.len() >= 12,
    ensures
        pr.pull_request.merge_commit_sha is None ==> r@.len() == 0,
        pr.pull_request.merge_commit_sha matches Some(s) ==> {
            let m = spec_matching_rules(config.labels@, pr.pull_request.labels@);
            &&& r@.len() == m.len()
            &&& forall|k: int|
                0 <= k < m.len() ==> spec_plan_ok(
                    #[trigger] r@[k],
                    m[k],
                    pr.repository.full_name@,
                    s@.subrange(0, 12),
                    file_diff@,
                )
        },
{
    let mut out: Vec<DocsLabelPlan> = Vec::new();
    let n = config.labels.len();
    let mut i: usize = 0;
    while i < n
        invariant
            i <= n,
            n == config.labels@.len(),
            pr.pull_request.merge_commit_sha matches Some(s) ==> s@.len() >= 12,
            pr.pull_request.merge_commit_sha is None ==> out@.len() == 0,
            pr.pull_request.merge_commit_sha matches Some(s) ==> {
                let m = spec_matching_rules(config.labels@.take(i as int),
                    pr.pull_request.labels@);
                &&& out@.len() == m.len()
                &&& forall|k: int|
                    0 <= k < m.len() ==> spec_plan_ok(
                        #[trigger] out@[k],
                        m[k],
                        pr.repository.full_name@,
                        s@.subrange(0, 12),
                        file_diff@,
                    )
            },
        decreases n - i,
    {
        proof {
            lemma_take_step(config.labels@, i as int);
        }
        let rule = &config.labels[i];
        if has_label(&pr.pull_request.labels, rule.label.as_str()) {
            match handle_docs_label(rule, &pr.pull_request, pr.repository.full_name.as_str(),
                file_diff) {
                Some(plan) => {
                    out.push(plan);
                },
                None => {
                },
            }
        }
        i = i + 1;
    }
    proof {
        assert(config.labels@.take(n as int) =~= config.labels@);
    }
    out
}

} // verus!
