//! What holds of the library as a whole: how parsing, formatting, writing
//! and title extraction fit together.

use crate::config::default_summary_day_names;
use crate::date::{clock_text, is_digit, lemma_clock_text_chars, ClockTime, Weekday};
use crate::entry::{appended_text, fragment, header_line, log_after_append, parse};
use crate::git::{fail, runs_command, transition, SyncError, SyncEvent, SyncMode, SyncState};
use crate::summary::{
    ascii_lowercase, entry_mark, extract_titles, named_weekdays, title_of_line,
    title_separator, titles_of_lines, weekday_named,
};
use crate::text::{
    find, find_from, is_blank, is_whitespace, line_end, lines, lines_from, occurs_at,
    skip_whitespace, strip_cr, trim,
};
use crate::text_lemmas::{
    lemma_blank_is_all_whitespace, lemma_line_end_bounds, lemma_line_end_with_final_feed,
    lemma_lines_hold_no_line_feed, lemma_lines_of_line_and_rest, lemma_trim_of_strip_cr,
    lemma_trim_of_text, lemma_trim_of_trimmed,
};
use vstd::prelude::*;

verus! {

/// Without a title, the body of a parsed entry is the raw text, untouched.
pub proof fn law_untitled_entry_keeps_raw_text(raw: Seq<char>)
    requires
        parse(raw).title is None,
    ensures
        parse(raw).body == raw,
{
    if lines(raw).len() == 0 {
        assert(raw =~= Seq::<char>::empty());
    }
}

/// The title of a parsed entry is not empty, holds no line feed, and neither
/// begins nor ends with white space.
pub proof fn law_title_is_a_trimmed_line(raw: Seq<char>)
    requires
        parse(raw).title is Some,
    ensures
        parse(raw).title->0.len() > 0,
        !is_whitespace(parse(raw).title->0.first()),
        !is_whitespace(parse(raw).title->0.last()),
        forall|k: int| 0 <= k < parse(raw).title->0.len() ==> parse(raw).title->0[k] != '\n',
{
    let first = lines(raw)[0];
    lemma_trim_of_text(first);
    lemma_lines_hold_no_line_feed(raw, 0);
    let title = trim(first);
    assert forall|k: int| 0 <= k < title.len() implies title[k] != '\n' by {
        assert(title[k] == first[skip_whitespace(first, 0) + k]);
    }
}

/// Appending writes nothing exactly when the raw text is blank. So an entry
/// of white space alone leaves the day's file as it is, and creates none.
pub proof fn law_blank_text_writes_nothing(raw: Seq<char>, time: ClockTime)
    ensures
        appended_text(raw, time) is None <==> is_blank(raw),
{
    let entry = parse(raw);
    let text = fragment(entry.title, entry.body, time);
    lemma_blank_is_all_whitespace(raw);
    lemma_blank_is_all_whitespace(text);
    let ls = lines(raw);
    if ls.len() == 0 {
        assert(raw =~= Seq::<char>::empty());
    } else if is_blank(ls[0]) {
        if raw.len() > 0 {
            assert(text == raw + seq!['\n']);
            if is_blank(raw) {
                assert forall|k: int| 0 <= k < text.len() implies is_whitespace(
                    #[trigger] text[k],
                ) by {
                    if k < raw.len() {
                        assert(text[k] == raw[k]);
                    }
                }
            } else {
                let k = choose|k: int| 0 <= k < raw.len() && !is_whitespace(#[trigger] raw[k]);
                assert(text[k] == raw[k]);
            }
        }
    } else {
        assert(text[0] == '#');
        lemma_blank_is_all_whitespace(ls[0]);
        let k = choose|k: int| 0 <= k < ls[0].len() && !is_whitespace(#[trigger] ls[0][k]);
        lemma_line_end_bounds(raw, 0);
        assert(ls[0][k] == raw[k]);
    }
}

/// Appending an entry whose fragment is blank leaves the day's file as it
/// was: what it held is unchanged, and a file that did not exist still does
/// not.
pub proof fn law_blank_entry_leaves_log_untouched(
    log: Option<Seq<char>>,
    raw: Seq<char>,
    time: ClockTime,
)
    requires
        is_blank(fragment(parse(raw).title, parse(raw).body, time)),
    ensures
        log_after_append(log, appended_text(raw, time)) == log,
{
}

/// The titles of lines put one after the other are the titles of the first
/// lines followed by those of the others.
pub proof fn lemma_titles_of_joined_lines(a: Seq<Seq<char>>, b: Seq<Seq<char>>)
    ensures
        titles_of_lines(a + b) == titles_of_lines(a) + titles_of_lines(b),
    decreases b.len(),
{
    if b.len() == 0 {
        assert(a + b =~= a);
        assert(titles_of_lines(a) + titles_of_lines(b) =~= titles_of_lines(a));
    } else {
        lemma_titles_of_joined_lines(a, b.drop_last());
        assert((a + b).drop_last() =~= a + b.drop_last());
        assert((a + b).last() == b.last());
        match title_of_line(b.last()) {
            Some(t) => {
                assert(titles_of_lines(a + b) =~= titles_of_lines(a) + titles_of_lines(b));
            },
            None => {},
        }
    }
}

/// The first place at or after `i` where `pat` stands in `s` is `at`, when
/// it stands there and nowhere between the two.
pub proof fn lemma_find_first(s: Seq<char>, pat: Seq<char>, i: int, at: int)
    requires
        0 <= i <= at,
        occurs_at(s, pat, at),
        forall|k: int| i <= k < at ==> !occurs_at(s, pat, k),
    ensures
        find_from(s, pat, i) == Some(at),
    decreases at - i,
{
    if i < at {
        lemma_find_first(s, pat, i + 1, at);
    }
}

/// The header line of an entry carries the entry's title, whatever the time
/// of day, provided that the title is a trimmed line.
pub proof fn lemma_header_line_carries_title(title: Seq<char>, time: ClockTime)
    requires
        title.len() > 0,
        !is_whitespace(title.first()),
        !is_whitespace(title.last()),
    ensures
        title_of_line(header_line(title, time)) == Some(title),
{
    let stamp = clock_text(time);
    let h = header_line(title, time);
    let n = stamp.len() as int;
    lemma_clock_text_chars(time);
    assert(h.len() == 6 + n + title.len());
    assert(h[0] == '#' && h[1] == '#' && h[2] == ' ');
    assert(forall|k: int| 0 <= k < n ==> h[3 + k] == stamp[k]);
    assert(h[3 + n] == ' ' && h[4 + n] == '-' && h[5 + n] == ' ');
    assert(forall|k: int| 0 <= k < title.len() ==> h[6 + n + k] == title[k]);
    assert(h.last() == title.last());
    lemma_trim_of_trimmed(h);
    assert(h.subrange(0, 3) =~= entry_mark());
    let sep = title_separator();
    assert(h.subrange(3 + n, 6 + n) =~= sep);
    assert forall|k: int| 0 <= k < 3 + n implies !occurs_at(h, sep, k) by {
        if occurs_at(h, sep, k) {
            let part = h.subrange(k, k + 3);
            assert(part[0] == h[k] && part[1] == h[k + 1]);
            assert(h[k] == ' ' && h[k + 1] == '-');
            if k == 2 {
                assert(h[3] == stamp[0]);
            } else if k >= 3 {
                assert(h[k] == stamp[k - 3]);
                assert(is_digit(stamp[k - 3]) || stamp[k - 3] == ':');
            }
        }
    }
    lemma_find_first(h, sep, 0, 3 + n);
    assert(find(h, sep) == Some(3 + n));
    assert(h.skip(6 + n) =~= title);
}

/// A line feed put at the end of a text adds no title and takes none away.
pub proof fn lemma_titles_with_final_feed(s: Seq<char>, i: int)
    requires
        0 <= i <= s.len(),
    ensures
        titles_of_lines(lines_from(s + seq!['\n'], i)) == titles_of_lines(lines_from(s, i)),
    decreases s.len() - i,
{
    let t = s + seq!['\n'];
    let none = Seq::<Seq<char>>::empty();
    lemma_line_end_with_final_feed(s, i);
    lemma_line_end_bounds(s, i);
    let e = line_end(s, i);
    if i == s.len() {
        assert(t.subrange(i, i) =~= Seq::<char>::empty());
        assert(lines_from(t, i + 1) =~= none);
        assert(lines_from(t, i) =~= seq![Seq::<char>::empty()]);
        lemma_titles_of_one_line(Seq::<char>::empty());
        assert(trim(Seq::<char>::empty()) =~= Seq::<char>::empty());
    } else if e < s.len() {
        let head = strip_cr(s.subrange(i, e));
        assert(t.subrange(i, e) =~= s.subrange(i, e));
        lemma_titles_with_final_feed(s, e + 1);
        lemma_titles_of_joined_lines(seq![head], lines_from(t, e + 1));
        lemma_titles_of_joined_lines(seq![head], lines_from(s, e + 1));
    } else {
        let last = s.subrange(i, s.len() as int);
        assert(t.subrange(i, e) =~= last);
        assert(lines_from(t, e + 1) =~= none);
        assert(lines_from(t, i) =~= seq![strip_cr(last)]);
        lemma_titles_of_one_line(strip_cr(last));
        lemma_titles_of_one_line(last);
        lemma_trim_of_strip_cr(last);
    }
}

/// The titles of a single line.
pub proof fn lemma_titles_of_one_line(line: Seq<char>)
    ensures
        titles_of_lines(seq![line]) == match title_of_line(line) {
            Some(t) => seq![t],
            None => Seq::empty(),
        },
{
    assert(seq![line].drop_last() =~= Seq::<Seq<char>>::empty());
    assert(titles_of_lines(seq![line].drop_last()) =~= Seq::<Seq<char>>::empty());
    assert(seq![line].last() == line);
    match title_of_line(line) {
        Some(t) => {
            assert(titles_of_lines(seq![line]) =~= seq![t]);
        },
        None => {},
    }
}

/// The titles of a written entry are the entry's title and, after it, the
/// titles that its body holds. This is so for any title that is a trimmed
/// line, any body and any time of day.
pub proof fn law_titles_of_written_entry(title: Seq<char>, body: Seq<char>, time: ClockTime)
    requires
        title.len() > 0,
        !is_whitespace(title.first()),
        !is_whitespace(title.last()),
        forall|k: int| 0 <= k < title.len() ==> title[k] != '\n',
    ensures
        extract_titles(fragment(Some(title), body, time)) == seq![title] + extract_titles(body),
{
    let h = header_line(title, time);
    let stamp = clock_text(time);
    let n = stamp.len() as int;
    let none = Seq::<Seq<char>>::empty();
    let blank = Seq::<char>::empty();
    lemma_clock_text_chars(time);
    assert(forall|k: int| 0 <= k < n ==> h[3 + k] == stamp[k]);
    assert(forall|k: int| 0 <= k < title.len() ==> h[6 + n + k] == title[k]);
    assert forall|k: int| 0 <= k < h.len() implies h[k] != '\n' by {
        if 3 <= k < 3 + n {
            assert(h[k] == stamp[k - 3]);
            assert(is_digit(stamp[k - 3]) || stamp[k - 3] == ':');
        } else if k >= 6 + n {
            assert(h[k] == title[k - 6 - n]);
        }
    }
    let rest = if body.len() == 0 {
        blank
    } else {
        seq!['\n'] + body + seq!['\n']
    };
    let text = fragment(Some(title), body, time);
    assert(text =~= h + seq!['\n'] + rest);
    lemma_lines_of_line_and_rest(h, rest);
    assert(h.last() == title.last());
    assert(strip_cr(h) == h);
    lemma_titles_of_joined_lines(seq![h], lines(rest));
    lemma_header_line_carries_title(title, time);
    lemma_titles_of_one_line(h);
    if body.len() == 0 {
        assert(lines(rest) =~= none);
        assert(extract_titles(body) =~= none);
    } else {
        let fed = body + seq!['\n'];
        assert(rest =~= blank + seq!['\n'] + fed);
        lemma_lines_of_line_and_rest(blank, fed);
        assert(strip_cr(blank) == blank);
        lemma_titles_of_joined_lines(seq![blank], lines(fed));
        lemma_titles_of_one_line(blank);
        assert(trim(blank) =~= blank);
        assert(title_of_line(blank) is None);
        lemma_titles_with_final_feed(body, 0);
        assert(titles_of_lines(lines(rest)) =~= extract_titles(body));
    }
}

/// Writing an entry and reading the titles back recovers the entry's title:
/// the titles of the fragment made from any raw text with a title are that
/// title and, after it, the titles that the body holds. This is so whether
/// or not there is a body, and whatever the time of day.
pub proof fn law_title_round_trip(raw: Seq<char>, time: ClockTime)
    requires
        parse(raw).title is Some,
    ensures
        extract_titles(fragment(parse(raw).title, parse(raw).body, time)) == seq![
            parse(raw).title->0,
        ] + extract_titles(parse(raw).body),
        extract_titles(fragment(parse(raw).title, parse(raw).body, time))[0] == parse(
            raw,
        ).title->0,
{
    let entry = parse(raw);
    law_title_is_a_trimmed_line(raw);
    law_titles_of_written_entry(entry.title->0, entry.body, time);
}

/// The days that a summary counts when none are configured resolve to Monday
/// to Friday.
pub proof fn law_default_summary_days_are_weekdays()
    ensures
        named_weekdays(default_summary_day_names()) == seq![
            Weekday::Mon,
            Weekday::Tue,
            Weekday::Wed,
            Weekday::Thu,
            Weekday::Fri,
        ],
{
    reveal_strlit("monday");
    reveal_strlit("mon");
    reveal_strlit("tuesday");
    reveal_strlit("tue");
    reveal_strlit("wednesday");
    reveal_strlit("wed");
    reveal_strlit("thursday");
    reveal_strlit("thu");
    reveal_strlit("friday");
    reveal_strlit("fri");
    let names = default_summary_day_names();
    assert(ascii_lowercase("monday"@) =~= "monday"@);
    assert(ascii_lowercase("tuesday"@) =~= "tuesday"@);
    assert(ascii_lowercase("wednesday"@) =~= "wednesday"@);
    assert(ascii_lowercase("thursday"@) =~= "thursday"@);
    assert(ascii_lowercase("friday"@) =~= "friday"@);
    let n1 = names.take(1);
    let n2 = names.take(2);
    let n3 = names.take(3);
    let n4 = names.take(4);
    assert(n1.drop_last() =~= Seq::<Seq<char>>::empty());
    assert(named_weekdays(n1.drop_last()) =~= Seq::<Weekday>::empty());
    assert(n1.last() == "monday"@);
    assert(named_weekdays(n1) =~= seq![Weekday::Mon]);
    assert(n2.drop_last() =~= n1);
    assert(n2.last() == "tuesday"@);
    assert(named_weekdays(n2) =~= seq![Weekday::Mon, Weekday::Tue]);
    assert(n3.drop_last() =~= n2);
    assert(n3.last() == "wednesday"@);
    assert(named_weekdays(n3) =~= seq![Weekday::Mon, Weekday::Tue, Weekday::Wed]);
    assert(n4.drop_last() =~= n3);
    assert(n4.last() == "thursday"@);
    assert(named_weekdays(n4) =~= seq![Weekday::Mon, Weekday::Tue, Weekday::Wed, Weekday::Thu]);
    assert(names.drop_last() =~= n4);
    assert(names.last() == "friday"@);
    assert("friday"@.len() == 6 && "friday"@[0] == 'f');
    assert(weekday_named("friday"@) == Some(Weekday::Fri));
    assert(named_weekdays(names.drop_last()) == named_weekdays(n4));
    assert(named_weekdays(names) =~= seq![
        Weekday::Mon,
        Weekday::Tue,
        Weekday::Wed,
        Weekday::Thu,
        Weekday::Fri,
    ]);
}

/// A command that fails ends the run in failure, with one exception: when
/// the first pull of a new repository fails, the run goes on.
pub proof fn law_failed_command_ends_run(mode: SyncMode, repo_configured: bool, state: SyncState)
    requires
        runs_command(state),
    ensures
        state != SyncState::FirstPull ==> transition(
            mode,
            repo_configured,
            state,
            SyncEvent::Failed,
        ) == fail(SyncError::CommandFailed),
        state == SyncState::FirstPull ==> transition(
            mode,
            repo_configured,
            state,
            SyncEvent::Failed,
        ).state == SyncState::CreatingBranch,
{
}

} // verus!
