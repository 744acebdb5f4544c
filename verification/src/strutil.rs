//! Verified helpers over strings, viewed as sequences of characters.
//!
//! The library's decisions are almost all decisions about strings: diff
//! headers, file paths, branch names, URLs.  This module provides the spec
//! vocabulary (prefix, splitting, joining) and the executable routines proved
//! against it.

use vstd::prelude::*;

verus! {

/// `p` is a prefix of `s`.
pub open spec fn spec_starts_with(s: Seq<char>, p: Seq<char>) -> bool {
    p.len() <= s.len() && s.subrange(0, p.len() as int) == p
}

/// Splitting state after scanning `s`: the separated pieces so far, and the
/// piece still being accumulated.  `keep_empty` decides whether a separator
/// ending an empty piece records that empty piece.
pub open spec fn split_state(s: Seq<char>, sep: char, keep_empty: bool) -> (Seq<Seq<char>>, Seq<char>)
    decreases s.len(),
{
    if s.len() == 0 {
        (Seq::empty(), Seq::empty())
    } else {
        let r = split_state(s.drop_last(), sep, keep_empty);
        if s.last() == sep {
            if r.1.len() == 0 && !keep_empty {
                (r.0, Seq::empty())
            } else {
                (r.0.push(r.1), Seq::empty())
            }
        } else {
            (r.0, r.1.push(s.last()))
        }
    }
}

/// The lines of `s`, separated by `'\n'`, a trailing separator ending the
/// last line rather than opening an empty one.
pub open spec fn spec_lines(s: Seq<char>) -> Seq<Seq<char>> {
    let r = split_state(s, '\n', true);
    if s.len() == 0 {
        Seq::empty()
    } else if s.last() == '\n' {
        r.0
    } else {
        r.0.push(r.1)
    }
}

/// The maximal non-empty runs of characters of `s` other than `sep`.
pub open spec fn spec_fields(s: Seq<char>, sep: char) -> Seq<Seq<char>> {
    let r = split_state(s, sep, false);
    if r.1.len() == 0 {
        r.0
    } else {
        r.0.push(r.1)
    }
}

/// Whether `p` is a prefix of `s`.
pub fn str_starts_with(s: &str, p: &str) -> (r: bool)
    ensures
        r == spec_starts_with(s@, p@),
{
    let n = s.unicode_len();
    let m = p.unicode_len();
    if m > n {
        return false;
    }
    let mut i: usize = 0;
    while i < m
        invariant
            0 <= i <= m,
            m <= n,
            n == s@.len(),
            m == p@.len(),
            forall|j: int| 0 <= j < i ==> s@[j] == p@[j],
        decreases m - i,
    {
        if s.get_char(i) != p.get_char(i) {
            assert(s@.subrange(0, m as int)[i as int] != p@[i as int]);
            return false;
        }
        i = i + 1;
    }
    assert(s@.subrange(0, m as int) =~= p@);
    true
}

/// Whether two string slices hold the same characters.
pub fn str_eq(a: &str, b: &str) -> (r: bool)
    ensures
        r == (a@ == b@),
{
    let n = a.unicode_len();
    let m = b.unicode_len();
    if n != m {
        return false;
    }
    let mut i: usize = 0;
    while i < n
        invariant
            0 <= i <= n,
            n == a@.len(),
            n == b@.len(),
            forall|j: int| 0 <= j < i ==> a@[j] == b@[j],
        decreases n - i,
    {
        if a.get_char(i) != b.get_char(i) {
            return false;
        }
        i = i + 1;
    }
    assert(a@ =~= b@);
    true
}

/// Scanning one more element extends the scanned prefix by that element.
pub proof fn lemma_take_step<T>(s: Seq<T>, i: int)
    requires
        0 <= i < s.len(),
    ensures
        s.take(i + 1).drop_last() =~= s.take(i),
        s.take(i + 1).last() == s[i],
{
}

/// The lines of `s`, as `spec_lines` lists them.
pub fn split_lines(s: &str) -> (r: Vec<String>)
    ensures
        r.deep_view() == spec_lines(s@),
{
    let n = s.unicode_len();
    let mut out: Vec<String> = Vec::new();
    let mut start: usize = 0;
    let mut i: usize = 0;
    while i < n
        invariant
            start <= i <= n,
            n == s@.len(),
            out.deep_view() == split_state(s@.take(i as int), '\n', true).0,
            s@.subrange(start as int, i as int) == split_state(s@.take(i as int), '\n', true).1,
        decreases n - i,
    {
        let c = s.get_char(i);
        proof {
            lemma_take_step(s@, i as int);
        }
        if c == '\n' {
            let line = String::from_str(s.substring_char(start, i));
            let ghost prev = out.deep_view();
            out.push(line);
            proof {
                assert(out.deep_view() =~~= prev.push(line@));
            }
            start = i + 1;
            proof {
                assert(s@.subrange(start as int, i + 1) =~= Seq::<char>::empty());
            }
        } else {
            proof {
                assert(s@.subrange(start as int, i + 1) =~= s@.subrange(start as int, i as int).push(
                    s@[i as int]));
            }
        }
        i = i + 1;
    }
    proof {
        assert(s@.take(n as int) =~= s@);
    }
    if n == 0 {
        return out;
    }
    if s.get_char(n - 1) == '\n' {
        out
    } else {
        let line = String::from_str(s.substring_char(start, n));
        let ghost prev = out.deep_view();
        out.push(line);
        proof {
            assert(out.deep_view() =~~= prev.push(line@));
        }
        out
    }
}

/// The non-empty runs of characters of `s` other than `sep`, as `spec_fields`
/// lists them.
pub fn split_fields(s: &str, sep: char) -> (r: Vec<String>)
    ensures
        r.deep_view() == spec_fields(s@, sep),
{
    let n = s.unicode_len();
    let mut out: Vec<String> = Vec::new();
    let mut start: usize = 0;
    let mut i: usize = 0;
    while i < n
        invariant
            start <= i <= n,
            n == s@.len(),
            out.deep_view() == split_state(s@.take(i as int), sep, false).0,
            s@.subrange(start as int, i as int) == split_state(s@.take(i as int), sep, false).1,
        decreases n - i,
    {
        let c = s.get_char(i);
        proof {
            lemma_take_step(s@, i as int);
        }
        if c == sep {
            if start < i {
                let piece = String::from_str(s.substring_char(start, i));
                let ghost prev = out.deep_view();
                out.push(piece);
                proof {
                    assert(out.deep_view() =~~= prev.push(piece@));
                }
            }
            start = i + 1;
            proof {
                assert(s@.subrange(start as int, i + 1) =~= Seq::<char>::empty());
            }
        } else {
            proof {
                assert(s@.subrange(start as int, i + 1) =~= s@.subrange(start as int, i as int).push(
                    s@[i as int]));
            }
        }
        i = i + 1;
    }
    proof {
        assert(s@.take(n as int) =~= s@);
    }
    if start < n {
        let piece = String::from_str(s.substring_char(start, n));
        let ghost prev = out.deep_view();
        out.push(piece);
        proof {
            assert(out.deep_view() =~~= prev.push(piece@));
        }
    }
    out
}

/// Concatenation of two string slices.
pub fn str_concat(a: &str, b: &str) -> (r: String)
    ensures
        r@ == a@ + b@,
{
    let mut s = a.to_owned();
    s.append(b);
    s
}

/// `s` with every occurrence of `from` replaced by `to`, scanning left to
/// right without overlap.  An empty pattern replaces nothing.
pub open spec fn spec_replace(s: Seq<char>, from: Seq<char>, to: Seq<char>) -> Seq<char>
    decreases s.len(),
{
    if from.len() == 0 || s.len() < from.len() {
        s
    } else if spec_starts_with(s, from) {
        to + spec_replace(s.skip(from.len() as int), from, to)
    } else {
        seq![s[0]] + spec_replace(s.drop_first(), from, to)
    }
}

/// Replaces every occurrence of `from` in `s` by `to`, as `spec_replace`
/// says.
pub fn str_replace(s: &str, from: &str, to: &str) -> (r: String)
    requires
        from@.len() > 0,
    ensures
        r@ == spec_replace(s@, from@, to@),
{
    let n = s.unicode_len();
    let m = from.unicode_len();
    let mut out = String::new();
    let mut i: usize = 0;
    proof {
        assert(s@.skip(0) =~= s@);
        assert(Seq::<char>::empty() + spec_replace(s@, from@, to@) =~= spec_replace(
            s@,
            from@,
            to@,
        ));
    }
    while i < n
        invariant
            i <= n,
            n == s@.len(),
            m == from@.len(),
            m > 0,
            out@ + spec_replace(s@.skip(i as int), from@, to@) == spec_replace(s@, from@, to@),
        decreases n - i,
    {
        let ghost tail = s@.skip(i as int);
        if m > n - i {
            let rest = String::from_str(s.substring_char(i, n));
            proof {
                assert(tail.len() < m);
                assert(tail =~= s@.subrange(i as int, n as int));
            }
            out.append(rest.as_str());
            i = n;
            proof {
                assert(s@.skip(n as int) =~= Seq::<char>::empty());
                assert(out@ + Seq::<char>::empty() =~= out@);
            }
        } else {
            let mut matches_here = true;
            let mut k: usize = 0;
            while k < m
                invariant
                    k <= m,
                    i + m <= n,
                    n == s@.len(),
                    m == from@.len(),
                    matches_here == (forall|q: int| 0 <= q < k ==> s@[i + q] == from@[q]),
                decreases m - k,
            {
                if s.get_char(i + k) != from.get_char(k) {
                    matches_here = false;
                    proof {
                        assert(s@[i + k] != from@[k as int]);
                    }
                    k = m;
                } else {
                    proof {
                        if matches_here {
                            assert(forall|q: int| 0 <= q < k + 1 ==> s@[i + q] == from@[q]);
                        }
                    }
                    k = k + 1;
                }
            }
            if matches_here {
                proof {
                    assert(tail.subrange(0, m as int) =~= from@) by {
                        assert(forall|q: int| 0 <= q < m ==> tail[q] == s@[i + q]);
                    }
                    assert(spec_starts_with(tail, from@));
                    assert(tail.skip(m as int) =~= s@.skip(i + m));
                }
                out.append(to);
                i = i + m;
                proof {
                    assert((out@ + spec_replace(s@.skip(i as int), from@, to@)) =~= spec_replace(
                        s@,
                        from@,
                        to@,
                    ));
                }
            } else {
                proof {
                    let w = choose|q: int| 0 <= q < m && s@[i + q] != from@[q];
                    assert(tail.subrange(0, m as int)[w] == s@[i + w]);
                    assert(!spec_starts_with(tail, from@));
                    assert(tail.drop_first() =~= s@.skip(i + 1));
                    assert(tail[0] == s@[i as int]);
                }
                let c = String::from_str(s.substring_char(i, i + 1));
                proof {
                    assert(c@ =~= seq![s@[i as int]]);
                }
                out.append(c.as_str());
                i = i + 1;
                proof {
                    assert((out@ + spec_replace(s@.skip(i as int), from@, to@)) =~= spec_replace(
                        s@,
                        from@,
                        to@,
                    ));
                }
            }
        }
    }
    proof {
        assert(s@.skip(n as int) =~= Seq::<char>::empty());
        assert(out@ + Seq::<char>::empty() =~= out@);
        assert(s@.skip(0) =~= s@);
    }
    out
}

/// `parts` joined with `sep` between successive parts.
pub open spec fn spec_join(parts: Seq<Seq<char>>, sep: Seq<char>) -> Seq<char>
    decreases parts.len(),
{
    if parts.len() == 0 {
        Seq::empty()
    } else if parts.len() == 1 {
        parts[0]
    } else {
        spec_join(parts.drop_last(), sep) + sep + parts.last()
    }
}

/// Joins `parts` with `sep` between successive parts.
pub fn join_with(parts: &Vec<String>, sep: &str) -> (r: String)
    ensures
        r@ == spec_join(parts.deep_view(), sep@),
{
    let mut out = String::new();
    let n = parts.len();
    let mut i: usize = 0;
    while i < n
        invariant
            i <= n,
            n == parts@.len(),
            n == parts.deep_view().len(),
            out@ == spec_join(parts.deep_view().take(i as int), sep@),
        decreases n - i,
    {
        proof {
            lemma_take_step(parts.deep_view(), i as int);
        }
        if i > 0 {
            out.append(sep);
        }
        out.append(parts[i].as_str());
        proof {
            if i == 0 {
                assert(out@ =~= parts.deep_view()[0]);
                assert(parts.deep_view().take(1)[0] == parts.deep_view()[0]);
            }
        }
        i = i + 1;
    }
    proof {
        assert(parts.deep_view().take(n as int) =~= parts.deep_view());
    }
    out
}

/// Every piece that scanning without empties has recorded is non-empty and
/// free of the separator, and so is the piece still in progress.
proof fn lemma_split_state_wf(s: Seq<char>, sep: char)
    ensures
        forall|k: int|
            0 <= k < split_state(s, sep, false).0.len() ==> (#[trigger] split_state(
                s,
                sep,
                false,
            ).0[k]).len() > 0 && !split_state(s, sep, false).0[k].contains(sep),
        !split_state(s, sep, false).1.contains(sep),
    decreases s.len(),
{
    if s.len() > 0 {
        lemma_split_state_wf(s.drop_last(), sep);
        let r = split_state(s.drop_last(), sep, false);
        if s.last() != sep {
            assert forall|j: int| 0 <= j < r.1.push(s.last()).len() implies r.1.push(s.last())[j]
                != sep by {
                if j < r.1.len() {
                    assert(!r.1.contains(sep));
                }
            }
            assert(!r.1.push(s.last()).contains(sep));
        }
    }
}

/// Appending separator-free text extends only the piece in progress.
proof fn lemma_split_append_free(x: Seq<char>, t: Seq<char>, sep: char)
    requires
        !t.contains(sep),
    ensures
        split_state(x + t, sep, false).0 == split_state(x, sep, false).0,
        split_state(x + t, sep, false).1 == split_state(x, sep, false).1 + t,
    decreases t.len(),
{
    if t.len() == 0 {
        assert(x + t =~= x);
        assert(split_state(x, sep, false).1 + t =~= split_state(x, sep, false).1);
    } else {
        assert(!t.drop_last().contains(sep)) by {
            if t.drop_last().contains(sep) {
                let w = choose|j: int| 0 <= j < t.drop_last().len() && t.drop_last()[j] == sep;
                assert(t[w] == sep);
            }
        }
        lemma_split_append_free(x, t.drop_last(), sep);
        assert((x + t).drop_last() =~= x + t.drop_last());
        assert((x + t).last() == t.last());
        assert(t.last() != sep) by {
            if t.last() == sep {
                assert(t[t.len() - 1] == sep);
            }
        }
        assert(split_state(x, sep, false).1 + t =~= (split_state(x, sep, false).1
            + t.drop_last()).push(t.last()));
    }
}

/// Splitting the join of non-empty, separator-free parts leaves the last part
/// in progress and the others recorded.
proof fn lemma_split_state_of_join(parts: Seq<Seq<char>>, sep: char)
    requires
        parts.len() > 0,
        forall|k: int|
            0 <= k < parts.len() ==> (#[trigger] parts[k]).len() > 0 && !parts[k].contains(sep),
    ensures
        split_state(spec_join(parts, seq![sep]), sep, false).0 == parts.drop_last(),
        split_state(spec_join(parts, seq![sep]), sep, false).1 == parts.last(),
    decreases parts.len(),
{
    if parts.len() == 1 {
        assert(Seq::<char>::empty() + parts[0] =~= parts[0]);
        lemma_split_append_free(Seq::<char>::empty(), parts[0], sep);
        assert(split_state(parts[0], sep, false).0 =~= parts.drop_last());
        assert(Seq::<char>::empty() + parts[0] =~= parts[0]);
        assert(split_state(parts[0], sep, false).1 =~= parts[0]);
    } else {
        let dl = parts.drop_last();
        assert(forall|k: int|
            0 <= k < dl.len() ==> (#[trigger] dl[k]).len() > 0 && !dl[k].contains(sep)) by {
            assert(forall|k: int| 0 <= k < dl.len() ==> dl[k] == parts[k]);
        }
        lemma_split_state_of_join(dl, sep);
        let x = spec_join(dl, seq![sep]);
        assert(spec_join(parts, seq![sep]) == x + seq![sep] + parts.last());
        assert(x.push(sep) =~= x + seq![sep]);
        assert(split_state(x.push(sep), sep, false).0 == dl.drop_last().push(dl.last())) by {
            assert(x.push(sep).drop_last() =~= x);
            assert(dl.last().len() > 0);
        }
        assert(dl.drop_last().push(dl.last()) =~= dl);
        assert(split_state(x + seq![sep], sep, false).0 == dl);
        assert(split_state(x + seq![sep], sep, false).1 =~= Seq::<char>::empty()) by {
            assert(x.push(sep).drop_last() =~= x);
        }
        lemma_split_append_free(x + seq![sep], parts.last(), sep);
        assert((x + seq![sep]) + parts.last() =~= x + seq![sep] + parts.last());
        assert(Seq::<char>::empty() + parts.last() =~= parts.last());
    }
}

/// Splitting a join recovers the parts, when each part is non-empty and free
/// of the separator.
pub proof fn lemma_fields_of_join(parts: Seq<Seq<char>>, sep: char)
    requires
        forall|k: int|
            0 <= k < parts.len() ==> (#[trigger] parts[k]).len() > 0 && !parts[k].contains(sep),
    ensures
        spec_fields(spec_join(parts, seq![sep]), sep) == parts,
{
    if parts.len() == 0 {
        assert(spec_fields(Seq::empty(), sep) =~~= parts);
    } else {
        lemma_split_state_of_join(parts, sep);
        assert(parts.last().len() > 0);
        assert(parts.drop_last().push(parts.last()) =~= parts);
    }
}

/// Every field of a split is non-empty and free of the separator.
pub proof fn lemma_fields_wf(s: Seq<char>, sep: char)
    ensures
        forall|k: int|
            0 <= k < spec_fields(s, sep).len() ==> (#[trigger] spec_fields(s, sep)[k]).len() > 0
                && !spec_fields(s, sep)[k].contains(sep),
{
    lemma_split_state_wf(s, sep);
    let r = split_state(s, sep, false);
    if r.1.len() != 0 {
        assert(forall|k: int|
            0 <= k < r.0.len() ==> spec_fields(s, sep)[k] == r.0[k]);
        assert(spec_fields(s, sep).last() == r.1);
    }
}

} // verus!
