//! The unified-diff parser: from the text of a pull request's diff to a
//! mapping from each changed file's pre-image path to its diff body.
//!
//! The scan is line by line.  A line beginning `diff --git a` opens a new
//! entry, keyed by the path following the `a/` token; the header's metadata
//! — index and mode lines through the `---`/`+++` marker pair — is skipped;
//! the body is everything after that pair up to the next header, so it
//! starts at the first hunk header, lines joined with newlines.  A file with
//! no hunks (a pure rename, a binary) keeps an empty body.  Malformed text
//! yields a partial or empty mapping, never a failure, and parsing the same
//! text again yields the same mapping.

use vstd::prelude::*;
use crate::strutil::{spec_starts_with, spec_fields, spec_lines, split_fields, split_lines,
    str_starts_with, str_eq};

verus! {

/// One changed file: its path on the diff's pre-image side, and the body of
/// its part of the diff.
#[derive(Debug, Clone, PartialEq, Eq)]
pub struct DiffEntry {
    pub path: String,
    pub body: String,
}

/// The mapping a diff parses to, in header order.
#[derive(Debug, Clone, PartialEq, Eq)]
pub struct DiffFileMap {
    pub entries: Vec<DiffEntry>,
}

/// The entries as pairs of character sequences.
pub open spec fn entries_view(es: Seq<DiffEntry>) -> Seq<(Seq<char>, Seq<char>)> {
    es.map_values(|e: DiffEntry| (e.path@, e.body@))
}

impl View for DiffFileMap {
    type V = Seq<(Seq<char>, Seq<char>)>;

    open spec fn view(&self) -> Seq<(Seq<char>, Seq<char>)> {
        entries_view(self.entries@)
    }
}

/// The path a header line announces: the text after `a/` in the line's first
/// space-separated token that begins with `a/`.  `None` for any other line.
pub open spec fn spec_header_path(line: Seq<char>) -> Option<Seq<char>> {
    if spec_starts_with(line, "diff --git a"@) {
        spec_first_a_token(spec_fields(line, ' '))
    } else {
        None
    }
}

/// The first token beginning with `a/`, with that prefix removed.
pub open spec fn spec_first_a_token(toks: Seq<Seq<char>>) -> Option<Seq<char>>
    decreases toks.len(),
{
    if toks.len() == 0 {
        None
    } else if spec_starts_with(toks[0], "a/"@) {
        Some(toks[0].skip(2))
    } else {
        spec_first_a_token(toks.drop_first())
    }
}

/// The position of the entry keyed `p`, or `-1` when there is none.
pub open spec fn spec_find_key(es: Seq<(Seq<char>, Seq<char>)>, p: Seq<char>) -> int
    decreases es.len(),
{
    if es.len() == 0 {
        -1
    } else if es[0].0 == p {
        0
    } else if spec_find_key(es.drop_first(), p) < 0 {
        -1
    } else {
        spec_find_key(es.drop_first(), p) + 1
    }
}

/// The second of the `---`/`+++` marker pair, which closes a file's header
/// metadata; the body begins on the next line.
pub open spec fn spec_is_second_marker(line: Seq<char>) -> bool {
    spec_starts_with(line, "+++"@)
}

/// The scan's state: the entries so far, which entry is accumulating, and
/// whether the scan is still inside that entry's header metadata — skipping
/// lines until the `---`/`+++` marker pair has passed.
pub open spec fn spec_diff_step(
    st: (Seq<(Seq<char>, Seq<char>)>, Option<int>, bool),
    line: Seq<char>,
) -> (Seq<(Seq<char>, Seq<char>)>, Option<int>, bool) {
    match spec_header_path(line) {
        Some(p) => {
            let i = spec_find_key(st.0, p);
            if i >= 0 {
                (st.0.update(i, (p, Seq::empty())), Some(i), true)
            } else {
                (st.0.push((p, Seq::empty())), Some(st.0.len() as int), true)
            }
        },
        None => match st.1 {
            Some(i) => if st.2 {
                (st.0, st.1, !spec_is_second_marker(line))
            } else {
                let cur = st.0[i];
                let body = if cur.1.len() == 0 {
                    line
                } else {
                    cur.1 + seq!['\n'] + line
                };
                (st.0.update(i, (cur.0, body)), st.1, false)
            },
            None => st,
        },
    }
}

/// The scan's state after the given lines.
pub open spec fn spec_diff_fold(lines: Seq<Seq<char>>) -> (
    Seq<(Seq<char>, Seq<char>)>,
    Option<int>,
    bool,
)
    decreases lines.len(),
{
    if lines.len() == 0 {
        (Seq::<(Seq<char>, Seq<char>)>::empty(), None::<int>, false)
    } else {
        spec_diff_step(spec_diff_fold(lines.drop_last()), lines.last())
    }
}

/// The mapping the diff text parses to.
pub open spec fn spec_parse_diff(text: Seq<char>) -> Seq<(Seq<char>, Seq<char>)> {
    spec_diff_fold(spec_lines(text)).0
}

/// A found key's position lies inside the entries.
proof fn lemma_find_key_bounds(es: Seq<(Seq<char>, Seq<char>)>, p: Seq<char>)
    ensures
        -1 <= spec_find_key(es, p) < es.len(),
    decreases es.len(),
{
    if es.len() > 0 {
        lemma_find_key_bounds(es.drop_first(), p);
    }
}

/// The accumulating index always points into the entries.
proof fn lemma_fold_wf(lines: Seq<Seq<char>>)
    ensures
        ({
            let st = spec_diff_fold(lines);
            st.1 matches Some(i) ==> 0 <= i < st.0.len()
        }),
    decreases lines.len(),
{
    if lines.len() > 0 {
        lemma_fold_wf(lines.drop_last());
        let st = spec_diff_fold(lines.drop_last());
        match spec_header_path(lines.last()) {
            Some(p) => {
                lemma_find_key_bounds(st.0, p);
            },
            None => {
            },
        }
    }
}

proof fn lemma_find_key_at(es: Seq<(Seq<char>, Seq<char>)>, p: Seq<char>, i: int)
    requires
        0 <= i < es.len(),
        forall|j: int| 0 <= j < i ==> (#[trigger] es[j]).0 != p,
        es[i].0 == p,
    ensures
        spec_find_key(es, p) == i,
    decreases i,
{
    if i > 0 {
        lemma_find_key_at(es.drop_first(), p, i - 1);
    }
}

proof fn lemma_find_key_none(es: Seq<(Seq<char>, Seq<char>)>, p: Seq<char>)
    requires
        forall|j: int| 0 <= j < es.len() ==> (#[trigger] es[j]).0 != p,
    ensures
        spec_find_key(es, p) == -1,
    decreases es.len(),
{
    if es.len() > 0 {
        lemma_find_key_none(es.drop_first(), p);
    }
}

proof fn lemma_first_a_token_at(toks: Seq<Seq<char>>, i: int)
    requires
        0 <= i < toks.len(),
        forall|j: int| 0 <= j < i ==> !spec_starts_with(#[trigger] toks[j], "a/"@),
        spec_starts_with(toks[i], "a/"@),
    ensures
        spec_first_a_token(toks) == Some(toks[i].skip(2)),
    decreases i,
{
    if i > 0 {
        lemma_first_a_token_at(toks.drop_first(), i - 1);
    }
}

proof fn lemma_first_a_token_none(toks: Seq<Seq<char>>)
    requires
        forall|j: int| 0 <= j < toks.len() ==> !spec_starts_with(#[trigger] toks[j], "a/"@),
    ensures
        spec_first_a_token(toks) is None,
    decreases toks.len(),
{
    if toks.len() > 0 {
        lemma_first_a_token_none(toks.drop_first());
    }
}

/// The path a header line announces, or `None` for any other line.
pub fn header_path(line: &str) -> (r: Option<String>)
    ensures
        match r {
            Some(p) => spec_header_path(line@) == Some(p@),
            None => spec_header_path(line@) is None,
        },
{
    if !str_starts_with(line, "diff --git a") {
        return None;
    }
    let toks = split_fields(line, ' ');
    let n = toks.len();
    let mut j: usize = 0;
    while j < n
        invariant
            j <= n,
            n == toks@.len(),
            toks.deep_view().len() == n,
            toks.deep_view() == spec_fields(line@, ' '),
            spec_starts_with(line@, "diff --git a"@),
            forall|k: int| 0 <= k < j ==> !spec_starts_with(#[trigger] toks.deep_view()[k], "a/"@),
        decreases n - j,
    {
        proof {
            assert(toks.deep_view()[j as int] == toks@[j as int]@);
        }
        if str_starts_with(toks[j].as_str(), "a/") {
            let t = toks[j].as_str();
            proof {
                reveal_strlit("a/");
            }
            let len = t.unicode_len();
            let p = String::from_str(t.substring_char(2, len));
            proof {
                lemma_first_a_token_at(toks.deep_view(), j as int);
                assert(t@.subrange(2, len as int) =~= toks.deep_view()[j as int].skip(2));
            }
            return Some(p);
        }
        j = j + 1;
    }
    proof {
        lemma_first_a_token_none(toks.deep_view());
    }
    None
}

/// The `Some(int)` shadow of an executable index option.
pub open spec fn opt_index_view(c: Option<usize>) -> Option<int> {
    match c {
        Some(u) => Some(u as int),
        None => None,
    }
}

/// The paths of the entries, in order.
pub open spec fn spec_entry_paths(es: Seq<(Seq<char>, Seq<char>)>) -> Seq<Seq<char>> {
    es.map_values(|e: (Seq<char>, Seq<char>)| e.0)
}

/// The distinct paths the header lines announce, in order of first
/// appearance.
pub open spec fn spec_header_paths(lines: Seq<Seq<char>>) -> Seq<Seq<char>>
    decreases lines.len(),
{
    if lines.len() == 0 {
        Seq::empty()
    } else {
        let rest = spec_header_paths(lines.drop_last());
        match spec_header_path(lines.last()) {
            Some(p) => if rest.contains(p) {
                rest
            } else {
                rest.push(p)
            },
            None => rest,
        }
    }
}

/// A key is found exactly when it is among the entries' paths, and the found
/// entry carries it.
proof fn lemma_find_key_contains(es: Seq<(Seq<char>, Seq<char>)>, p: Seq<char>)
    ensures
        spec_find_key(es, p) >= 0 <==> spec_entry_paths(es).contains(p),
        spec_find_key(es, p) >= 0 ==> es[spec_find_key(es, p)].0 == p,
    decreases es.len(),
{
    lemma_find_key_bounds(es, p);
    if es.len() > 0 {
        lemma_find_key_contains(es.drop_first(), p);
        lemma_find_key_bounds(es.drop_first(), p);
        if es[0].0 == p {
            assert(spec_entry_paths(es)[0] == p);
        } else {
            if spec_find_key(es.drop_first(), p) >= 0 {
                let i = spec_find_key(es.drop_first(), p);
                assert(spec_entry_paths(es)[i + 1] == spec_entry_paths(es.drop_first())[i]);
            } else {
                if spec_entry_paths(es).contains(p) {
                    let i = choose|i: int|
                        0 <= i < spec_entry_paths(es).len() && spec_entry_paths(es)[i] == p;
                    assert(spec_entry_paths(es.drop_first())[i - 1] == spec_entry_paths(es)[i]);
                    assert(spec_entry_paths(es.drop_first()).contains(p));
                }
            }
        }
    }
}

/// The mapping's keys are exactly the paths the header lines announce, in
/// order of first appearance: a repeated header reuses its entry, and body
/// lines never add or remove one.
pub proof fn lemma_parse_diff_keys(text: Seq<char>)
    ensures
        spec_entry_paths(spec_parse_diff(text)) == spec_header_paths(spec_lines(text)),
{
    lemma_fold_keys(spec_lines(text));
}

proof fn lemma_fold_keys(lines: Seq<Seq<char>>)
    ensures
        spec_entry_paths(spec_diff_fold(lines).0) == spec_header_paths(lines),
    decreases lines.len(),
{
    if lines.len() > 0 {
        lemma_fold_keys(lines.drop_last());
        lemma_fold_wf(lines.drop_last());
        let st = spec_diff_fold(lines.drop_last());
        match spec_header_path(lines.last()) {
            Some(p) => {
                lemma_find_key_contains(st.0, p);
                lemma_find_key_bounds(st.0, p);
                let i = spec_find_key(st.0, p);
                if i >= 0 {
                    let upd = st.0.update(i, (p, Seq::<char>::empty()));
                    assert forall|j: int| 0 <= j < st.0.len() implies spec_entry_paths(upd)[j]
                        == spec_entry_paths(st.0)[j] by {
                        assert(spec_entry_paths(upd)[j] == upd[j].0);
                        assert(spec_entry_paths(st.0)[j] == st.0[j].0);
                        if j == i {
                            assert(st.0[i].0 == p);
                        }
                    }
                    assert(spec_entry_paths(upd) =~= spec_entry_paths(st.0));
                } else {
                    assert(spec_entry_paths(st.0.push((p, Seq::<char>::empty())))
                        =~= spec_entry_paths(st.0).push(p));
                }
            },
            None => {
                match st.1 {
                    Some(i) => {
                        if st.2 {
                        } else {
                            let cur = st.0[i];
                            let body = if cur.1.len() == 0 {
                                lines.last()
                            } else {
                                cur.1 + seq!['\n'] + lines.last()
                            };
                            let upd = st.0.update(i, (cur.0, body));
                            assert forall|j: int| 0 <= j < st.0.len() implies spec_entry_paths(
                                upd,
                            )[j] == spec_entry_paths(st.0)[j] by {
                                assert(spec_entry_paths(upd)[j] == upd[j].0);
                                assert(spec_entry_paths(st.0)[j] == st.0[j].0);
                            }
                            assert(spec_entry_paths(upd) =~= spec_entry_paths(st.0));
                        }
                    },
                    None => {
                    },
                }
            },
        }
    }
}

/// The position of the entry whose path is `p`, if there is one.
fn find_entry_index(entries: &Vec<DiffEntry>, p: &str) -> (r: Option<usize>)
    ensures
        match r {
            Some(i) => i < entries@.len() && spec_find_key(entries_view(entries@), p@) == i as int,
            None => spec_find_key(entries_view(entries@), p@) == -1,
        },
{
    let n = entries.len();
    let mut i: usize = 0;
    while i < n
        invariant
            i <= n,
            n == entries@.len(),
            forall|j: int| 0 <= j < i ==> (#[trigger] entries_view(entries@)[j]).0 != p@,
        decreases n - i,
    {
        proof {
            assert(entries_view(entries@)[i as int].0 == entries@[i as int].path@);
        }
        if str_eq(entries[i].path.as_str(), p) {
            proof {
                lemma_find_key_at(entries_view(entries@), p@, i as int);
            }
            return Some(i);
        }
        i = i + 1;
    }
    proof {
        lemma_find_key_none(entries_view(entries@), p@);
    }
    None
}

impl DiffFileMap {
    /// How many files the diff touched.
    pub fn len(&self) -> (n: usize)
        ensures
            n == self@.len(),
    {
        let n = self.entries.len();
        proof {
            assert(self@.len() == self.entries@.len());
        }
        n
    }

    /// The body recorded for `path`, if the diff touched it.
    pub fn get<'a>(&'a self, path: &str) -> (r: Option<&'a String>)
        ensures
            match r {
                Some(b) => spec_find_key(self@, path@) >= 0 && self@[spec_find_key(self@, path@)].1
                    == b@,
                None => spec_find_key(self@, path@) == -1,
            },
    {
        match find_entry_index(&self.entries, path) {
            Some(i) => {
                proof {
                    assert(self@[i as int].1 == self.entries@[i as int].body@);
                }
                Some(&self.entries[i].body)
            },
            None => None,
        }
    }
}

/// Parses a unified diff into the per-file mapping: see `spec_parse_diff`.
pub fn parse_files_diff(text: &str) -> (r: DiffFileMap)
    ensures
        r@ == spec_parse_diff(text@),
{
    let lines = split_lines(text);
    let mut entries: Vec<DiffEntry> = Vec::new();
    let mut cur: Option<usize> = None;
    let mut skipping = false;
    let n = lines.len();
    let mut i: usize = 0;
    while i < n
        invariant
            i <= n,
            n == lines@.len(),
            lines.deep_view().len() == n,
            lines.deep_view() == spec_lines(text@),
            entries_view(entries@) == spec_diff_fold(lines.deep_view().take(i as int)).0,
            opt_index_view(cur) == spec_diff_fold(lines.deep_view().take(i as int)).1,
            skipping == spec_diff_fold(lines.deep_view().take(i as int)).2,
            cur matches Some(c) ==> c < entries@.len(),
        decreases n - i,
    {
        let ghost prefix = lines.deep_view().take(i as int);
        let ghost st = spec_diff_fold(prefix);
        proof {
            assert(lines.deep_view().take(i + 1).drop_last() =~= prefix);
            assert(lines.deep_view().take(i + 1).last() == lines.deep_view()[i as int]);
            assert(lines.deep_view()[i as int] == lines@[i as int]@);
        }
        let line = lines[i].as_str();
        match header_path(line) {
            Some(p) => {
                let ghost pv = p@;
                match find_entry_index(&entries, p.as_str()) {
                    Some(idx) => {
                        let ghost before = entries@;
                        entries[idx] = DiffEntry { path: p, body: String::new() };
                        proof {
                            assert(entries_view(entries@) =~= entries_view(before).update(
                                idx as int,
                                (pv, Seq::<char>::empty()),
                            ));
                        }
                        cur = Some(idx);
                        skipping = true;
                    },
                    None => {
                        let ghost before = entries@;
                        let idx = entries.len();
                        entries.push(DiffEntry { path: p, body: String::new() });
                        proof {
                            assert(entries_view(entries@) =~= entries_view(before).push(
                                (pv, Seq::<char>::empty()),
                            ));
                        }
                        cur = Some(idx);
                        skipping = true;
                    },
                }
            },
            None => {
                match cur {
                    Some(ci) => {
                        if skipping {
                            skipping = !str_starts_with(line, "+++");
                        } else {
                            let ghost before = entries@;
                            let add_sep = !entries[ci].body.as_str().is_empty();
                            if add_sep {
                                let e = &mut entries[ci];
                                e.body.append("\n");
                                e.body.append(line);
                            } else {
                                let e = &mut entries[ci];
                                e.body.append(line);
                            }
                            proof {
                                reveal_strlit("\n");
                                let old_entry = before[ci as int];
                                let body = if old_entry.body@.len() == 0 {
                                    line@
                                } else {
                                    old_entry.body@ + seq!['\n'] + line@
                                };
                                assert("\n"@ =~= seq!['\n']);
                                if old_entry.body@.len() == 0 {
                                    assert(entries@[ci as int].body@ =~= body);
                                } else {
                                    assert(entries@[ci as int].body@ =~= body);
                                }
                                assert(entries_view(entries@) =~= entries_view(before).update(
                                    ci as int,
                                    (old_entry.path@, body),
                                ));
                            }
                        }
                    },
                    None => {
                    },
                }
            },
        }
        i = i + 1;
    }
    proof {
        assert(lines.deep_view().take(n as int) =~= lines.deep_view());
    }
    DiffFileMap { entries }
}

} // verus!
