//! Facts about trimming, lines and searching that the proofs of the library
//! rest on.

use crate::text::{
    find_from, is_blank, is_whitespace, line_end, lines, lines_from, occurs_at, skip_whitespace,
    skip_whitespace_back, strip_cr, trim,
};
use vstd::prelude::*;

verus! {

/// Where skipping white space from `i` stops: everything passed is white
/// space, and what stands at the stop, if anything, is not.
pub proof fn lemma_skip_whitespace(s: Seq<char>, i: int)
    requires
        0 <= i <= s.len(),
    ensures
        i <= skip_whitespace(s, i) <= s.len(),
        forall|k: int| i <= k < skip_whitespace(s, i) ==> is_whitespace(#[trigger] s[k]),
        skip_whitespace(s, i) < s.len() ==> !is_whitespace(s[skip_whitespace(s, i)]),
    decreases s.len() - i,
{
    if i < s.len() && is_whitespace(s[i]) {
        lemma_skip_whitespace(s, i + 1);
    }
}

/// Where dropping trailing white space from `j` stops: everything dropped is
/// white space, and what stands before the stop, if anything, is not.
pub proof fn lemma_skip_whitespace_back(s: Seq<char>, j: int)
    requires
        0 <= j <= s.len(),
    ensures
        0 <= skip_whitespace_back(s, j) <= j,
        forall|k: int| skip_whitespace_back(s, j) <= k < j ==> is_whitespace(#[trigger] s[k]),
        skip_whitespace_back(s, j) > 0 ==> !is_whitespace(s[skip_whitespace_back(s, j) - 1]),
    decreases j,
{
    if 0 < j && is_whitespace(s[j - 1]) {
        lemma_skip_whitespace_back(s, j - 1);
    }
}

/// A text is blank exactly when each of its characters is white space.
pub proof fn lemma_blank_is_all_whitespace(s: Seq<char>)
    ensures
        is_blank(s) <==> forall|k: int| 0 <= k < s.len() ==> is_whitespace(#[trigger] s[k]),
{
    lemma_skip_whitespace(s, 0);
    lemma_skip_whitespace_back(s, s.len() as int);
    let start = skip_whitespace(s, 0);
    let end = skip_whitespace_back(s, s.len() as int);
    if forall|k: int| 0 <= k < s.len() ==> is_whitespace(#[trigger] s[k]) {
        if start < s.len() {
            assert(is_whitespace(s[start]));
        }
        if end > 0 {
            assert(is_whitespace(s[end - 1]));
        }
    } else {
        let k = choose|k: int| 0 <= k < s.len() && !is_whitespace(#[trigger] s[k]);
        if start > k {
            assert(is_whitespace(s[k]));
        }
        if end <= k {
            assert(is_whitespace(s[k]));
        }
        assert(trim(s).len() == end - start);
    }
}

/// A text that is not blank is trimmed to what lies between its first and
/// its last character that is not white space. The result is not empty and
/// neither begins nor ends with white space.
pub proof fn lemma_trim_of_text(s: Seq<char>)
    requires
        !is_blank(s),
    ensures
        trim(s).len() > 0,
        !is_whitespace(trim(s).first()),
        !is_whitespace(trim(s).last()),
        trim(s) == s.subrange(skip_whitespace(s, 0), skip_whitespace_back(s, s.len() as int)),
        0 <= skip_whitespace(s, 0) < skip_whitespace_back(s, s.len() as int) <= s.len(),
{
    lemma_skip_whitespace(s, 0);
    lemma_skip_whitespace_back(s, s.len() as int);
}

/// A text that neither begins nor ends with white space is its own trimmed
/// form.
pub proof fn lemma_trim_of_trimmed(s: Seq<char>)
    requires
        s.len() > 0 ==> !is_whitespace(s.first()) && !is_whitespace(s.last()),
    ensures
        trim(s) == s,
{
    if s.len() > 0 {
        assert(skip_whitespace(s, 0) == 0);
        assert(skip_whitespace_back(s, s.len() as int) == s.len());
        assert(s.subrange(0, s.len() as int) =~= s);
    } else {
        assert(trim(s) =~= s);
    }
}

/// Trimming twice is trimming once.
pub proof fn lemma_trim_twice(s: Seq<char>)
    ensures
        trim(trim(s)) == trim(s),
{
    if is_blank(s) {
        assert(trim(s) =~= Seq::<char>::empty());
        lemma_trim_of_trimmed(trim(s));
    } else {
        lemma_trim_of_text(s);
        lemma_trim_of_trimmed(trim(s));
    }
}

/// What lies between the first and the last character that is not white
/// space is the trimmed text.
pub proof fn lemma_trim_is(s: Seq<char>, a: int, b: int)
    requires
        0 <= a < b <= s.len(),
        forall|k: int| 0 <= k < a ==> is_whitespace(#[trigger] s[k]),
        forall|k: int| b <= k < s.len() ==> is_whitespace(#[trigger] s[k]),
        !is_whitespace(s[a]),
        !is_whitespace(s[b - 1]),
    ensures
        trim(s) == s.subrange(a, b),
{
    lemma_skip_whitespace(s, 0);
    lemma_skip_whitespace_back(s, s.len() as int);
    let start = skip_whitespace(s, 0);
    let end = skip_whitespace_back(s, s.len() as int);
    if start < a {
        assert(is_whitespace(s[start]));
    }
    if start > a {
        assert(is_whitespace(s[a]));
    }
    if end > b {
        assert(is_whitespace(s[end - 1]));
    }
    if end < b {
        assert(is_whitespace(s[b - 1]));
    }
}

/// White space at the end of a text does not show in its trimmed form.
pub proof fn lemma_trim_ignores_final_whitespace(s: Seq<char>)
    requires
        s.len() > 0,
        is_whitespace(s.last()),
    ensures
        trim(s.drop_last()) == trim(s),
{
    let t = s.drop_last();
    lemma_blank_is_all_whitespace(s);
    lemma_blank_is_all_whitespace(t);
    if is_blank(s) {
        assert forall|k: int| 0 <= k < t.len() implies is_whitespace(#[trigger] t[k]) by {
            assert(t[k] == s[k]);
        }
        assert(trim(s) =~= trim(t));
    } else {
        lemma_trim_of_text(s);
        lemma_skip_whitespace(s, 0);
        lemma_skip_whitespace_back(s, s.len() as int);
        let a = skip_whitespace(s, 0);
        let b = skip_whitespace_back(s, s.len() as int);
        assert(b < s.len());
        assert forall|k: int| 0 <= k < a implies is_whitespace(#[trigger] t[k]) by {
            assert(t[k] == s[k]);
        }
        assert forall|k: int| b <= k < t.len() implies is_whitespace(#[trigger] t[k]) by {
            assert(t[k] == s[k]);
        }
        assert(t[a] == s[a]);
        assert(t[b - 1] == s[b - 1]);
        lemma_trim_is(t, a, b);
        assert(t.subrange(a, b) =~= s.subrange(a, b));
    }
}

/// A line and the same line less a trailing carriage return are trimmed to
/// the same text.
pub proof fn lemma_trim_of_strip_cr(l: Seq<char>)
    ensures
        trim(strip_cr(l)) == trim(l),
{
    if l.len() > 0 && l.last() == '\r' {
        lemma_trim_ignores_final_whitespace(l);
    }
}

pub proof fn lemma_line_end_bounds(s: Seq<char>, i: int)
    requires
        0 <= i <= s.len(),
    ensures
        i <= line_end(s, i) <= s.len(),
        line_end(s, i) < s.len() ==> s[line_end(s, i)] == '\n',
        forall|k: int| i <= k < line_end(s, i) ==> s[k] != '\n',
    decreases s.len() - i,
{
    if i < s.len() && s[i] != '\n' {
        lemma_line_end_bounds(s, i + 1);
    }
}

/// The search for the end of a line, started at `i`, stops at the line feed
/// at `e` when no line feed stands between the two.
pub proof fn lemma_line_end_stops(s: Seq<char>, i: int, e: int)
    requires
        0 <= i <= e < s.len(),
        s[e] == '\n',
        forall|k: int| i <= k < e ==> s[k] != '\n',
    ensures
        line_end(s, i) == e,
    decreases e - i,
{
    if i < e {
        lemma_line_end_stops(s, i + 1, e);
    }
}

/// Looking for the end of a line gives the same place in a text and in what
/// is left of it after a cut before the place where the search starts.
pub proof fn lemma_line_end_shift(s: Seq<char>, cut: int, i: int)
    requires
        0 <= cut <= i <= s.len(),
    ensures
        line_end(s.skip(cut), i - cut) == line_end(s, i) - cut,
    decreases s.len() - i,
{
    if i < s.len() && s[i] != '\n' {
        lemma_line_end_shift(s, cut, i + 1);
    }
}

/// A line feed put at the end of a text does not move the end of any of its
/// lines.
pub proof fn lemma_line_end_with_final_feed(s: Seq<char>, i: int)
    requires
        0 <= i <= s.len(),
    ensures
        line_end(s + seq!['\n'], i) == line_end(s, i),
    decreases s.len() - i,
{
    let t = s + seq!['\n'];
    if i < s.len() {
        assert(t[i] == s[i]);
        if s[i] != '\n' {
            lemma_line_end_with_final_feed(s, i + 1);
        }
    } else {
        assert(t[i] == '\n');
    }
}

/// The lines from a line start on are the lines of what stands there.
pub proof fn lemma_lines_from_is_lines_of_rest(s: Seq<char>, i: int)
    requires
        0 <= i <= s.len(),
    ensures
        lines_from(s, i) == lines(s.skip(i)),
    decreases s.len() - i,
{
    let rest = s.skip(i);
    if i < s.len() {
        lemma_line_end_shift(s, i, i);
        lemma_line_end_bounds(s, i);
        lemma_line_end_bounds(rest, 0);
        let e = line_end(s, i);
        assert(line_end(rest, 0) == e - i);
        if e < s.len() {
            assert(rest.subrange(0, e - i) =~= s.subrange(i, e));
            lemma_lines_from_is_lines_of_rest(s, e + 1);
            lemma_lines_from_is_lines_of_rest(rest, e - i + 1);
            assert(rest.skip(e - i + 1) =~= s.skip(e + 1));
        } else {
            assert(rest.subrange(0, rest.len() as int) =~= s.subrange(i, s.len() as int));
        }
    }
}

/// A text made of a line without line feed, a line feed and a rest has that
/// line as its first line, less a trailing carriage return, and the lines of
/// the rest after it.
pub proof fn lemma_lines_of_line_and_rest(line: Seq<char>, rest: Seq<char>)
    requires
        forall|k: int| 0 <= k < line.len() ==> line[k] != '\n',
    ensures
        lines(line + seq!['\n'] + rest) == seq![strip_cr(line)] + lines(rest),
{
    let s = line + seq!['\n'] + rest;
    lemma_line_end_stops(s, 0, line.len() as int);
    assert(s.subrange(0, line.len() as int) =~= line);
    lemma_lines_from_is_lines_of_rest(s, line.len() as int + 1);
    assert(s.skip(line.len() as int + 1) =~= rest);
}

/// No line holds a line feed.
pub proof fn lemma_lines_hold_no_line_feed(s: Seq<char>, i: int)
    requires
        0 <= i <= s.len(),
    ensures
        forall|n: int, k: int|
            0 <= n < lines_from(s, i).len() && 0 <= k < lines_from(s, i)[n].len()
                ==> #[trigger] lines_from(s, i)[n][k] != '\n',
    decreases s.len() - i,
{
    if i < s.len() {
        lemma_line_end_bounds(s, i);
        let e = line_end(s, i);
        if e < s.len() {
            lemma_lines_hold_no_line_feed(s, e + 1);
            let first = strip_cr(s.subrange(i, e));
            let rest = lines_from(s, e + 1);
            assert forall|n: int, k: int|
                0 <= n < lines_from(s, i).len() && 0 <= k < lines_from(s, i)[n].len()
                    implies #[trigger] lines_from(s, i)[n][k] != '\n' by {
                if n == 0 {
                    assert(first[k] == s[i + k]);
                } else {
                    assert(lines_from(s, i)[n] == rest[n - 1]);
                }
            }
        } else {
            assert forall|n: int, k: int|
                0 <= n < lines_from(s, i).len() && 0 <= k < lines_from(s, i)[n].len()
                    implies #[trigger] lines_from(s, i)[n][k] != '\n' by {
                assert(lines_from(s, i)[n][k] == s[i + k]);
            }
        }
    }
}

/// Where `find_from` finds `pat`, `pat` stands, and it fits into `s`.
pub proof fn lemma_find_bounds(s: Seq<char>, pat: Seq<char>, i: int)
    requires
        0 <= i,
    ensures
        find_from(s, pat, i) matches Some(at) ==> i <= at && at + pat.len() <= s.len()
            && occurs_at(s, pat, at),
    decreases s.len() + 1 - i,
{
    if i + pat.len() <= s.len() && !occurs_at(s, pat, i) {
        lemma_find_bounds(s, pat, i + 1);
    }
}

} // verus!
