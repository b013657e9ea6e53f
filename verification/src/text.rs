//! Operations on character sequences: trimming white space and splitting on a
//! separator.

use vstd::prelude::*;
use vstd::string::*;

verus! {

/// Whether `c` has the Unicode `White_Space` property, as `char::is_whitespace`
/// reports it.
pub uninterp spec fn white_space(c: char) -> bool;

/// Calls `char::is_whitespace`. Trusted: the answer is what [`white_space`]
/// names, a fixed property of the character.
#[verifier::external_body]
pub(crate) fn is_whitespace(c: char) -> (r: bool)
    ensures
        r == white_space(c),
{
    c.is_whitespace()
}

/// The first position at or after `from` whose character is not white space,
/// or `s.len()` when every character from `from` on is white space.
pub open spec fn skip_space(s: Seq<char>, from: int) -> int
    decreases s.len() - from,
{
    if 0 <= from < s.len() && white_space(s[from]) {
        skip_space(s, from + 1)
    } else {
        from
    }
}

/// The end of `s[low..to]` once its trailing white space is dropped.
pub open spec fn drop_space(s: Seq<char>, low: int, to: int) -> int
    decreases to - low,
{
    if low < to <= s.len() && white_space(s[to - 1]) {
        drop_space(s, low, to - 1)
    } else {
        to
    }
}

/// `s` without its leading and trailing white space.
pub open spec fn trimmed(s: Seq<char>) -> Seq<char> {
    let start = skip_space(s, 0);
    s.subrange(start, drop_space(s, start, s.len() as int))
}

/// The first position at or after `from` that holds `sep`, or `s.len()` when
/// `sep` does not occur from `from` on.
pub open spec fn find(s: Seq<char>, sep: char, from: int) -> int
    decreases s.len() - from,
{
    if 0 <= from < s.len() && s[from] != sep {
        find(s, sep, from + 1)
    } else {
        from
    }
}

/// The pieces of `s[from..]` that lie between occurrences of `sep`, in order.
/// Each occurrence closes one piece, so `k` occurrences give `k + 1` pieces,
/// of which any may be empty.
pub open spec fn split_from(s: Seq<char>, sep: char, from: int) -> Seq<Seq<char>>
    decreases s.len() - from,
{
    let at = find(s, sep, from);
    if from <= at < s.len() {
        seq![s.subrange(from, at)] + split_from(s, sep, at + 1)
    } else {
        seq![s.subrange(from, s.len() as int)]
    }
}

/// The pieces of `s` that lie between occurrences of `sep`.
pub open spec fn split(s: Seq<char>, sep: char) -> Seq<Seq<char>> {
    split_from(s, sep, 0)
}

/// The pieces of `s[from..]` between occurrences of `sep`, each one trimmed.
pub open spec fn entries_from(s: Seq<char>, sep: char, from: int) -> Seq<Seq<char>> {
    split_from(s, sep, from).map_values(|piece: Seq<char>| trimmed(piece))
}

/// The pieces of `s` between occurrences of `sep`, each one trimmed.
pub open spec fn entries(s: Seq<char>, sep: char) -> Seq<Seq<char>> {
    entries_from(s, sep, 0)
}

/// `pieces` with `sep` put between each two neighbours.
pub open spec fn joined(pieces: Seq<Seq<char>>, sep: char) -> Seq<char>
    decreases pieces.len(),
{
    if pieces.len() == 0 {
        Seq::empty()
    } else if pieces.len() == 1 {
        pieces[0]
    } else {
        pieces[0] + seq![sep] + joined(pieces.drop_first(), sep)
    }
}

/// Removes leading and trailing white space.
pub fn trim(s: &str) -> (r: &str)
    ensures
        r@ == trimmed(s@),
{
    let n = s.unicode_len();
    let mut start: usize = 0;
    let mut end: usize = 0;
    let mut found = false;
    let mut i: usize = 0;
    for c in it: s.chars()
        invariant
            it.seq() == s@,
            n == s@.len(),
            i == it.index(),
            !found ==> end == 0 && forall|j: int| 0 <= j < i ==> white_space(s@[j]),
            found ==> start == skip_space(s@, 0) && start < end <= i && !white_space(
                s@[end - 1],
            ) && forall|j: int| end <= j < i ==> white_space(s@[j]),
    {
        if !is_whitespace(c) {
            if !found {
                proof {
                    lemma_skip_space_over(s@, 0, i as int);
                }
                start = i;
                found = true;
            }
            end = i + 1;
        }
        i += 1;
    }
    proof {
        if found {
            lemma_drop_space_over(s@, start as int, end as int, n as int);
        } else {
            lemma_skip_space_over(s@, 0, n as int);
        }
    }
    if !found {
        start = n;
        end = n;
    }
    s.substring_char(start, end)
}

/// Splits `s` at each `sep` and trims every piece.
pub fn split_trimmed(s: &str, sep: char) -> (r: Vec<String>)
    ensures
        r.deep_view() == entries(s@, sep),
{
    let n = s.unicode_len();
    let mut out: Vec<String> = Vec::new();
    let mut start: usize = 0;
    let mut i: usize = 0;
    for c in it: s.chars()
        invariant
            it.seq() == s@,
            n == s@.len(),
            i == it.index(),
            start <= i,
            forall|j: int| start <= j < i ==> s@[j] != sep,
            out.deep_view() + entries_from(s@, sep, start as int) == entries(s@, sep),
    {
        if c == sep {
            let piece = trim(s.substring_char(start, i));
            proof {
                lemma_entries_step(s@, sep, start as int, i as int);
            }
            let ghost before = out.deep_view();
            out.push(piece.to_owned());
            assert(out.deep_view() =~= before.push(piece@));
            assert(before.push(piece@) + entries_from(s@, sep, i + 1) =~= before + (seq![piece@]
                + entries_from(s@, sep, i + 1)));
            start = i + 1;
        }
        i += 1;
    }
    let piece = trim(s.substring_char(start, n));
    proof {
        lemma_entries_last(s@, sep, start as int);
    }
    let ghost before = out.deep_view();
    out.push(piece.to_owned());
    assert(out.deep_view() =~= before.push(piece@));
    out
}

/// Trimming cuts white space from both ends and nothing else: what is cut
/// is all white space, and what is left neither starts nor ends with it.
pub proof fn law_trim_cuts_space_from_both_ends(s: Seq<char>)
    ensures
        ({
            let start = skip_space(s, 0);
            let end = drop_space(s, start, s.len() as int);
            &&& 0 <= start <= end <= s.len()
            &&& trimmed(s) == s.subrange(start, end)
            &&& forall|j: int| 0 <= j < start ==> white_space(s[j])
            &&& forall|j: int| end <= j < s.len() ==> white_space(s[j])
            &&& trimmed(s).len() > 0 ==> !white_space(trimmed(s).first()) && !white_space(
                trimmed(s).last(),
            )
        }),
{
    lemma_skip_space(s, 0);
    lemma_drop_space(s, skip_space(s, 0), s.len() as int);
}

/// Splitting loses nothing and leaves no separator behind: the pieces,
/// joined by the separator, give the text back, and none of them holds the
/// separator. So the pieces come in the order of the text, one more than
/// there are separators.
pub proof fn law_split_then_join(s: Seq<char>, sep: char)
    ensures
        split(s, sep).len() >= 1,
        joined(split(s, sep), sep) == s,
        forall|k: int, j: int|
            0 <= k < split(s, sep).len() && 0 <= j < split(s, sep)[k].len() ==> split(
                s,
                sep,
            )[k][j] != sep,
{
    lemma_split_from(s, sep, 0);
    assert(s.subrange(0, s.len() as int) =~= s);
}

/// Skipping white space stops within the text, passes over white space
/// only, and stops at a character that is none.
pub proof fn lemma_skip_space(s: Seq<char>, from: int)
    requires
        0 <= from <= s.len(),
    ensures
        from <= skip_space(s, from) <= s.len(),
        forall|j: int| from <= j < skip_space(s, from) ==> white_space(s[j]),
        skip_space(s, from) < s.len() ==> !white_space(s[skip_space(s, from)]),
    decreases s.len() - from,
{
    if from < s.len() && white_space(s[from]) {
        lemma_skip_space(s, from + 1);
    }
}

proof fn lemma_drop_space(s: Seq<char>, low: int, to: int)
    requires
        0 <= low <= to <= s.len(),
    ensures
        low <= drop_space(s, low, to) <= to,
        forall|j: int| drop_space(s, low, to) <= j < to ==> white_space(s[j]),
        low < drop_space(s, low, to) ==> !white_space(s[drop_space(s, low, to) - 1]),
    decreases to - low,
{
    if low < to && white_space(s[to - 1]) {
        lemma_drop_space(s, low, to - 1);
    }
}

proof fn lemma_skip_space_over(s: Seq<char>, from: int, to: int)
    requires
        0 <= from <= to <= s.len(),
        forall|j: int| from <= j < to ==> white_space(s[j]),
    ensures
        skip_space(s, from) == skip_space(s, to),
    decreases to - from,
{
    if from < to {
        lemma_skip_space_over(s, from + 1, to);
    }
}

proof fn lemma_drop_space_over(s: Seq<char>, low: int, end: int, to: int)
    requires
        0 <= low <= end <= to <= s.len(),
        forall|j: int| end <= j < to ==> white_space(s[j]),
    ensures
        drop_space(s, low, to) == drop_space(s, low, end),
    decreases to - end,
{
    if end < to {
        lemma_drop_space_over(s, low, end, to - 1);
    }
}

proof fn lemma_find(s: Seq<char>, sep: char, from: int)
    requires
        0 <= from <= s.len(),
    ensures
        from <= find(s, sep, from) <= s.len(),
        forall|j: int| from <= j < find(s, sep, from) ==> s[j] != sep,
        find(s, sep, from) < s.len() ==> s[find(s, sep, from)] == sep,
    decreases s.len() - from,
{
    if from < s.len() && s[from] != sep {
        lemma_find(s, sep, from + 1);
    }
}

proof fn lemma_find_over(s: Seq<char>, sep: char, from: int, to: int)
    requires
        0 <= from <= to <= s.len(),
        forall|j: int| from <= j < to ==> s[j] != sep,
    ensures
        find(s, sep, from) == find(s, sep, to),
    decreases to - from,
{
    if from < to {
        lemma_find_over(s, sep, from + 1, to);
    }
}

proof fn lemma_split_from(s: Seq<char>, sep: char, from: int)
    requires
        0 <= from <= s.len(),
    ensures
        split_from(s, sep, from).len() >= 1,
        joined(split_from(s, sep, from), sep) == s.subrange(from, s.len() as int),
        forall|k: int, j: int|
            0 <= k < split_from(s, sep, from).len() && 0 <= j < split_from(s, sep, from)[k].len()
                ==> split_from(s, sep, from)[k][j] != sep,
    decreases s.len() - from,
{
    lemma_find(s, sep, from);
    let at = find(s, sep, from);
    if at < s.len() {
        lemma_split_from(s, sep, at + 1);
        let head = s.subrange(from, at);
        let rest = split_from(s, sep, at + 1);
        let pieces = seq![head] + rest;
        assert(pieces.drop_first() =~= rest);
        assert(head + seq![sep] + s.subrange(at + 1, s.len() as int) =~= s.subrange(
            from,
            s.len() as int,
        ));
        assert forall|k: int, j: int| 0 <= k < pieces.len() && 0 <= j < pieces[k].len() implies
            pieces[k][j] != sep by {
            if k > 0 {
                assert(pieces[k] == rest[k - 1]);
            }
        }
    }
}

proof fn lemma_entries_step(s: Seq<char>, sep: char, from: int, at: int)
    requires
        0 <= from <= at < s.len(),
        forall|j: int| from <= j < at ==> s[j] != sep,
        s[at] == sep,
    ensures
        entries_from(s, sep, from) == seq![trimmed(s.subrange(from, at))] + entries_from(
            s,
            sep,
            at + 1,
        ),
{
    lemma_find_over(s, sep, from, at);
    assert(entries_from(s, sep, from) =~= seq![trimmed(s.subrange(from, at))] + entries_from(
        s,
        sep,
        at + 1,
    ));
}

proof fn lemma_entries_last(s: Seq<char>, sep: char, from: int)
    requires
        0 <= from <= s.len(),
        forall|j: int| from <= j < s.len() ==> s[j] != sep,
    ensures
        entries_from(s, sep, from) == seq![trimmed(s.subrange(from, s.len() as int))],
{
    lemma_find_over(s, sep, from, s.len() as int);
    assert(entries_from(s, sep, from) =~= seq![trimmed(s.subrange(from, s.len() as int))]);
}

} // verus!
