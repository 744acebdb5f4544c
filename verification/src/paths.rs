//! Verified path arithmetic on `/`-separated path strings.
//!
//! A path is modelled by its components: the maximal non-empty runs of
//! characters other than `/`.  That matches how the filesystem reads the
//! string — a trailing slash or a doubled slash names the same file — and it
//! is the meaning under which a file "lies under" a configured directory.

use vstd::prelude::*;
use crate::strutil::{spec_fields, spec_join, split_fields, join_with, str_eq};

verus! {

/// The components of path `p`.
pub open spec fn spec_components(p: Seq<char>) -> Seq<Seq<char>> {
    spec_fields(p, '/')
}

/// `p` lies under directory `dir`: the components of `dir` lead those of `p`.
pub open spec fn spec_path_under(p: Seq<char>, dir: Seq<char>) -> bool {
    spec_components(dir).is_prefix_of(spec_components(p))
}

/// The components of `p` after those of `dir`.
pub open spec fn spec_strip_components(p: Seq<char>, dir: Seq<char>) -> Seq<Seq<char>> {
    spec_components(p).skip(spec_components(dir).len() as int)
}

/// The components of `p`.
pub fn path_components(p: &str) -> (r: Vec<String>)
    ensures
        r.deep_view() == spec_components(p@),
{
    split_fields(p, '/')
}

/// The components of `p` past the leading components of `dir`, or `None`
/// when `p` does not lie under `dir`.
pub fn strip_components(p: &str, dir: &str) -> (r: Option<Vec<String>>)
    ensures
        match r {
            Some(v) => spec_path_under(p@, dir@) && v.deep_view() == spec_strip_components(
                p@,
                dir@,
            ),
            None => !spec_path_under(p@, dir@),
        },
{
    let pc = path_components(p);
    let dc = path_components(dir);
    let m = dc.len();
    let n = pc.len();
    if m > n {
        assert(!spec_components(dir@).is_prefix_of(spec_components(p@)));
        return None;
    }
    let mut i: usize = 0;
    while i < m
        invariant
            i <= m <= n,
            m == dc.deep_view().len(),
            n == pc.deep_view().len(),
            dc.deep_view() == spec_components(dir@),
            pc.deep_view() == spec_components(p@),
            forall|j: int| 0 <= j < i ==> spec_components(dir@)[j] == spec_components(p@)[j],
        decreases m - i,
    {
        if !str_eq(dc[i].as_str(), pc[i].as_str()) {
            assert(spec_components(dir@)[i as int] != spec_components(p@)[i as int]);
            assert(!spec_components(dir@).is_prefix_of(spec_components(p@))) by {
                if spec_components(dir@).is_prefix_of(spec_components(p@)) {
                    assert(spec_components(p@).take(m as int)[i as int] == spec_components(
                        p@,
                    )[i as int]);
                }
            }
            return None;
        }
        i = i + 1;
    }
    assert(spec_components(dir@).is_prefix_of(spec_components(p@))) by {
        assert(spec_components(p@).take(m as int) =~= spec_components(dir@));
    }
    let mut suffix: Vec<String> = Vec::new();
    let mut k: usize = m;
    while k < n
        invariant
            m <= k <= n,
            n == pc.deep_view().len(),
            n == pc@.len(),
            pc.deep_view() == spec_components(p@),
            suffix.deep_view() == spec_components(p@).subrange(m as int, k as int),
        decreases n - k,
    {
        let ghost prev = suffix.deep_view();
        let piece = pc[k].clone();
        suffix.push(piece);
        proof {
            assert(suffix.deep_view() =~~= prev.push(pc.deep_view()[k as int]));
            assert(spec_components(p@).subrange(m as int, k + 1) =~= spec_components(p@).subrange(
                m as int,
                k as int,
            ).push(spec_components(p@)[k as int]));
        }
        k = k + 1;
    }
    proof {
        assert(spec_components(p@).subrange(m as int, n as int) =~= spec_components(p@).skip(
            m as int,
        ));
    }
    Some(suffix)
}

/// Joins components into a path string with `/` separators.
pub fn components_to_path(parts: &Vec<String>) -> (r: String)
    ensures
        r@ == spec_join(parts.deep_view(), seq!['/']),
{
    let r = join_with(parts, "/");
    proof {
        reveal_strlit("/");
        assert("/"@ =~= seq!['/']);
    }
    r
}

} // verus!
