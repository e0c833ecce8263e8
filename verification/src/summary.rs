//! Looking back over the log: which days count, what each day's entries were
//! called, and how many of the days that count have an entry.

use crate::calendar::{date_before, days_before, weekday_of, weekday_on};
use crate::date::{Date, Weekday};
use crate::text::{
    chars_of, copy_range, find, find_text, four_chars, is_blank, is_blank_text, lines, matches_at,
    same_text, skip_char, split_lines, starts_with, string_of, texts, three_chars, trim,
    trim_bounds, two_chars, views,
};
use crate::text_lemmas::lemma_find_bounds;
use vstd::prelude::*;

verus! {

/// The lower-case form of an ASCII capital letter; any other character is
/// left as it is.
pub open spec fn ascii_lower(c: char) -> char {
    if 'A' <= c <= 'Z' {
        ((c as u8 + 32) as u8) as char
    } else {
        c
    }
}

/// `s` with its ASCII capital letters in lower case.
pub open spec fn ascii_lowercase(s: Seq<char>) -> Seq<char> {
    Seq::new(s.len(), |i: int| ascii_lower(s[i]))
}

/// The day that a lower-case English name, or its first three letters,
/// stands for.
pub open spec fn weekday_named(name: Seq<char>) -> Option<Weekday> {
    if name == "monday"@ || name == "mon"@ {
        Some(Weekday::Mon)
    } else if name == "tuesday"@ || name == "tue"@ {
        Some(Weekday::Tue)
    } else if name == "wednesday"@ || name == "wed"@ {
        Some(Weekday::Wed)
    } else if name == "thursday"@ || name == "thu"@ {
        Some(Weekday::Thu)
    } else if name == "friday"@ || name == "fri"@ {
        Some(Weekday::Fri)
    } else if name == "saturday"@ || name == "sat"@ {
        Some(Weekday::Sat)
    } else if name == "sunday"@ || name == "sun"@ {
        Some(Weekday::Sun)
    } else {
        None
    }
}

fn lower_char(c: char) -> (l: char)
    ensures
        l == ascii_lower(c),
{
    if 'A' <= c && c <= 'Z' {
        ((c as u8) + 32) as char
    } else {
        c
    }
}

fn is_name(word: &Vec<char>, name: &str) -> (same: bool)
    ensures
        same == (word@ == name@),
{
    let n = chars_of(name);
    same_text(word, &n)
}

/// Reads the name of a day of the week: a full English name or its first
/// three letters, in any mix of upper and lower case. Anything else gives
/// `None`.
pub fn parse_weekday(day_str: &str) -> (day: Option<Weekday>)
    ensures
        day == weekday_named(ascii_lowercase(day_str@)),
{
    let raw = chars_of(day_str);
    let mut word: Vec<char> = Vec::new();
    let mut i: usize = 0;
    while i < raw.len()
        invariant
            i <= raw.len(),
            word@ == ascii_lowercase(raw@.take(i as int)),
        decreases raw.len() - i,
    {
        word.push(lower_char(raw[i]));
        proof {
            assert(word@ =~= ascii_lowercase(raw@.take(i as int + 1)));
        }
        i += 1;
    }
    proof {
        assert(raw@.take(raw.len() as int) =~= raw@);
    }
    if is_name(&word, "monday") || is_name(&word, "mon") {
        Some(Weekday::Mon)
    } else if is_name(&word, "tuesday") || is_name(&word, "tue") {
        Some(Weekday::Tue)
    } else if is_name(&word, "wednesday") || is_name(&word, "wed") {
        Some(Weekday::Wed)
    } else if is_name(&word, "thursday") || is_name(&word, "thu") {
        Some(Weekday::Thu)
    } else if is_name(&word, "friday") || is_name(&word, "fri") {
        Some(Weekday::Fri)
    } else if is_name(&word, "saturday") || is_name(&word, "sat") {
        Some(Weekday::Sat)
    } else if is_name(&word, "sunday") || is_name(&word, "sun") {
        Some(Weekday::Sun)
    } else {
        None
    }
}

/// What opens the header of a stamped entry.
pub open spec fn entry_mark() -> Seq<char> {
    seq!['#', '#', ' ']
}

/// What stands between the time and the title in the header of a stamped
/// entry.
pub open spec fn title_separator() -> Seq<char> {
    seq![' ', '-', ' ']
}

/// What opens a first-level header.
pub open spec fn h1_mark() -> Seq<char> {
    seq!['#', ' ']
}

/// What opens a third-level header.
pub open spec fn h3_mark() -> Seq<char> {
    seq!['#', '#', '#', ' ']
}

/// The title that the line `line` carries, if it is a header.
///
/// The line is trimmed first. A line that opens with `## ` and holds ` - `
/// gives all that follows the first ` - `. A line that opens with `# ` or
/// `### ` gives what is left once the leading `#` characters and the white
/// space around the rest are dropped. Any other line carries no title.
pub open spec fn title_of_line(line: Seq<char>) -> Option<Seq<char>> {
    let l = trim(line);
    if starts_with(l, entry_mark()) && find(l, title_separator()) is Some {
        Some(l.skip(find(l, title_separator())->0 + title_separator().len()))
    } else if starts_with(l, h1_mark()) || starts_with(l, h3_mark()) {
        Some(trim(l.skip(skip_char(l, '#', 0))))
    } else {
        None
    }
}

/// The titles that the lines `ls` carry, in their order.
pub open spec fn titles_of_lines(ls: Seq<Seq<char>>) -> Seq<Seq<char>>
    decreases ls.len(),
{
    if ls.len() == 0 {
        Seq::empty()
    } else {
        let before = titles_of_lines(ls.drop_last());
        match title_of_line(ls.last()) {
            Some(t) => before.push(t),
            None => before,
        }
    }
}

/// The titles of the entries and headers in a day's markdown, top to bottom.
pub open spec fn extract_titles(content: Seq<char>) -> Seq<Seq<char>> {
    titles_of_lines(lines(content))
}

/// The title that one line carries, if it is a header.
pub fn line_title(line: &Vec<char>) -> (title: Option<String>)
    ensures
        match title {
            Some(t) => title_of_line(line@) == Some(t@),
            None => title_of_line(line@) is None,
        },
{
    let (from, to) = trim_bounds(line);
    let l = copy_range(line, from, to);
    let entry = three_chars('#', '#', ' ');
    let separator = three_chars(' ', '-', ' ');
    let h1 = two_chars('#', ' ');
    let h3 = four_chars('#', '#', '#', ' ');
    let stamped = if matches_at(&l, &entry, 0) {
        find_text(&l, &separator)
    } else {
        None
    };
    match stamped {
        Some(at) => {
            proof {
                lemma_find_bounds(l@, separator@, 0);
                assert(l@.skip(at + 3) =~= l@.subrange(at + 3, l.len() as int));
            }
            Some(string_of(&l, at + 3, l.len()))
        },
        None => {
            if matches_at(&l, &h1, 0) || matches_at(&l, &h3, 0) {
                let mut k: usize = 0;
                while k < l.len() && l[k] == '#'
                    invariant
                        k <= l.len(),
                        skip_char(l@, '#', 0) == skip_char(l@, '#', k as int),
                    decreases l.len() - k,
                {
                    k += 1;
                }
                let rest = copy_range(&l, k, l.len());
                proof {
                    assert(rest@ =~= l@.skip(k as int));
                }
                let (a, b) = trim_bounds(&rest);
                Some(string_of(&rest, a, b))
            } else {
                None
            }
        },
    }
}

/// Collects the titles of the entries and headers in a day's markdown, top
/// to bottom.
pub fn extract_entry_titles(content: &str) -> (titles: Vec<String>)
    ensures
        texts(titles@) == extract_titles(content@),
{
    let chars = chars_of(content);
    let ls = split_lines(&chars);
    let mut titles: Vec<String> = Vec::new();
    let mut i: usize = 0;
    let ghost all = views(ls@);
    proof {
        assert(all.take(0) =~= Seq::<Seq<char>>::empty());
        assert(texts(titles@) =~= Seq::<Seq<char>>::empty());
    }
    while i < ls.len()
        invariant
            i <= ls.len(),
            all == views(ls@),
            texts(titles@) == titles_of_lines(all.take(i as int)),
        decreases ls.len() - i,
    {
        let ghost before = texts(titles@);
        proof {
            assert(all.take(i as int + 1).drop_last() =~= all.take(i as int));
            assert(all.take(i as int + 1).last() == ls@[i as int]@);
        }
        match line_title(&ls[i]) {
            Some(t) => {
                titles.push(t);
                proof {
                    assert(texts(titles@) =~= before.push(t@));
                }
            },
            None => {},
        }
        i += 1;
    }
    proof {
        assert(all.take(ls.len() as int) =~= all);
    }
    titles
}

/// The days of the week that the names in `names` stand for, in their order.
/// A name that stands for no day is passed over.
pub open spec fn named_weekdays(names: Seq<Seq<char>>) -> Seq<Weekday>
    decreases names.len(),
{
    if names.len() == 0 {
        Seq::empty()
    } else {
        let before = named_weekdays(names.drop_last());
        match weekday_named(ascii_lowercase(names.last())) {
            Some(day) => before.push(day),
            None => before,
        }
    }
}

/// Resolves the configured names of the days that the summary counts. Names
/// that stand for no day are dropped without complaint.
pub fn summary_weekdays(summary_days: &Vec<String>) -> (allowed: Vec<Weekday>)
    ensures
        allowed@ == named_weekdays(texts(summary_days@)),
{
    let mut allowed: Vec<Weekday> = Vec::new();
    let ghost names = texts(summary_days@);
    let mut i: usize = 0;
    proof {
        assert(names.take(0) =~= Seq::<Seq<char>>::empty());
    }
    while i < summary_days.len()
        invariant
            i <= summary_days.len(),
            names == texts(summary_days@),
            allowed@ == named_weekdays(names.take(i as int)),
        decreases summary_days.len() - i,
    {
        proof {
            assert(names.take(i as int + 1).drop_last() =~= names.take(i as int));
            assert(names.take(i as int + 1).last() == summary_days@[i as int]@);
        }
        match parse_weekday(summary_days[i].as_str()) {
            Some(day) => {
                allowed.push(day);
            },
            None => {},
        }
        i += 1;
    }
    proof {
        assert(names.take(summary_days.len() as int) =~= names);
    }
    allowed
}

/// Whether `day` is one of the days in `allowed`.
pub fn is_summary_day(day: Weekday, allowed: &Vec<Weekday>) -> (counts: bool)
    ensures
        counts == allowed@.contains(day),
{
    let mut i: usize = 0;
    while i < allowed.len()
        invariant
            i <= allowed.len(),
            forall|k: int| 0 <= k < i ==> allowed@[k] != day,
        decreases allowed.len() - i,
    {
        if allowed[i] == day {
            return true;
        }
        i += 1;
    }
    false
}

/// The day `i` days before `today`, with its day of the week; `None` when the
/// calendar has no such day.
pub open spec fn window_day(today: Date, i: int) -> Option<(Date, Weekday)> {
    match date_before(today, i) {
        Some(date) => match weekday_of(date) {
            Some(day) => Some((date, day)),
            None => None,
        },
        None => None,
    }
}

/// Whether the calendar has each of the `span` days that end with `today`.
pub open spec fn window_exists(today: Date, span: int) -> bool {
    forall|i: int| 0 <= i < span ==> (#[trigger] window_day(today, i)) is Some
}

/// Of the `span` days that end with `today`, those that fall on a day of the
/// week in `allowed`, the most recent first.
pub open spec fn eligible_days(today: Date, span: int, allowed: Seq<Weekday>) -> Seq<Date>
    decreases span,
{
    if span <= 0 {
        Seq::empty()
    } else {
        let later = eligible_days(today, span - 1, allowed);
        match window_day(today, span - 1) {
            Some((date, day)) => if allowed.contains(day) {
                later.push(date)
            } else {
                later
            },
            None => later,
        }
    }
}

/// Lists the days that a summary over the last `days` days counts: today,
/// yesterday and so on back, each kept when it falls on a day of the week in
/// `allowed`. The result is `None` when the calendar cannot reach that far
/// back.
pub fn summary_window(today: Date, days: u32, allowed: &Vec<Weekday>) -> (window: Option<
    Vec<Date>,
>)
    ensures
        window is Some <==> window_exists(today, days as int),
        window matches Some(v) ==> v@ == eligible_days(today, days as int, allowed@) && v.len()
            <= days,
{
    let mut eligible: Vec<Date> = Vec::new();
    let mut i: u32 = 0;
    while i < days
        invariant
            i <= days,
            window_exists(today, i as int),
            eligible@ == eligible_days(today, i as int, allowed@),
            eligible.len() <= i,
        decreases days - i,
    {
        let date = match days_before(today, i) {
            Some(date) => date,
            None => {
                assert(window_day(today, i as int) is None);
                return None;
            },
        };
        let day = match weekday_on(date) {
            Some(day) => day,
            None => {
                assert(window_day(today, i as int) is None);
                return None;
            },
        };
        assert(window_day(today, i as int) == Some((date, day)));
        if is_summary_day(day, allowed) {
            eligible.push(date);
        }
        i += 1;
    }
    Some(eligible)
}

/// One day of the log as it was found on disk.
pub struct LogDay {
    pub date: Date,
    /// What the day's file holds; `None` when there is no such file.
    pub content: Option<String>,
}

/// What a summary shows of one day.
pub struct DaySummary {
    pub date: Date,
    /// The lines to show: the day's titles, or else its first line of text.
    pub lines: Vec<String>,
    /// Whether `lines` holds titles.
    pub titled: bool,
}

/// What `DaySummary` stands for.
pub struct DaySummaryView {
    pub date: Date,
    pub lines: Seq<Seq<char>>,
    pub titled: bool,
}

impl View for DaySummary {
    type V = DaySummaryView;

    open spec fn view(&self) -> DaySummaryView {
        DaySummaryView { date: self.date, lines: texts(self.lines@), titled: self.titled }
    }
}

/// A summary of the days that count.
pub struct Summary {
    /// How many days were eligible.
    pub eligible_days: usize,
    /// How many of them have an entry.
    pub total_entries: usize,
    /// The days with an entry, the most recent first.
    pub days: Vec<DaySummary>,
}

/// Whether the day has an entry: a file that holds more than white space.
pub open spec fn has_entry(day: LogDay) -> bool {
    day.content matches Some(c) && !is_blank(c@)
}

/// The index of the first line at or after `i` that is not blank, or the
/// number of lines when there is none.
pub open spec fn first_text_line(ls: Seq<Seq<char>>, i: int) -> int
    decreases ls.len() - i,
{
    if 0 <= i < ls.len() && is_blank(ls[i]) {
        first_text_line(ls, i + 1)
    } else {
        i
    }
}

/// What stands for a day without titles: its first line that is not blank,
/// trimmed.
pub open spec fn first_text(content: Seq<char>) -> Seq<Seq<char>> {
    let ls = lines(content);
    let i = first_text_line(ls, 0);
    if i < ls.len() {
        seq![trim(ls[i])]
    } else {
        Seq::empty()
    }
}

/// What a summary shows of a day that holds `content`.
pub open spec fn day_summary(date: Date, content: Seq<char>) -> DaySummaryView {
    let titles = extract_titles(content);
    if titles.len() > 0 {
        DaySummaryView { date, lines: titles, titled: true }
    } else {
        DaySummaryView { date, lines: first_text(content), titled: false }
    }
}

/// What a summary shows of `days`: one item for each day that has an entry,
/// in the order of `days`.
pub open spec fn day_summaries(days: Seq<LogDay>) -> Seq<DaySummaryView>
    decreases days.len(),
{
    if days.len() == 0 {
        Seq::empty()
    } else {
        let before = day_summaries(days.drop_last());
        let day = days.last();
        if has_entry(day) {
            before.push(day_summary(day.date, day.content->0@))
        } else {
            before
        }
    }
}

/// What the items of a summary stand for.
pub open spec fn summary_views(days: Seq<DaySummary>) -> Seq<DaySummaryView> {
    Seq::new(days.len(), |i: int| days[i]@)
}

/// No more days have an entry than there are days.
pub proof fn lemma_entries_bounded(days: Seq<LogDay>)
    ensures
        day_summaries(days).len() <= days.len(),
    decreases days.len(),
{
    if days.len() > 0 {
        lemma_entries_bounded(days.drop_last());
    }
}

/// Summarises one day that holds `content`.
pub fn summarize_day(date: Date, content: &str) -> (day: DaySummary)
    ensures
        day@ == day_summary(date, content@),
{
    let titles = extract_entry_titles(content);
    if titles.len() > 0 {
        return DaySummary { date, lines: titles, titled: true };
    }
    let chars = chars_of(content);
    let ls = split_lines(&chars);
    let mut shown: Vec<String> = Vec::new();
    let mut i: usize = 0;
    while i < ls.len()
        invariant
            i <= ls.len(),
            shown@.len() == 0,
            views(ls@) == lines(content@),
            extract_titles(content@).len() == 0,
            first_text_line(views(ls@), 0) == first_text_line(views(ls@), i as int),
        decreases ls.len() - i,
    {
        let (from, to) = trim_bounds(&ls[i]);
        if from < to {
            shown.push(string_of(&ls[i], from, to));
            proof {
                assert(texts(shown@) =~= first_text(content@));
            }
            return DaySummary { date, lines: shown, titled: false };
        }
        i += 1;
    }
    proof {
        assert(texts(shown@) =~= first_text(content@));
    }
    DaySummary { date, lines: shown, titled: false }
}

/// Summarises the eligible days of a window, given in the window's order
/// with what each day's file holds.
///
/// Every day in `days` counts as eligible. A day has an entry when its file
/// exists and is not blank; such a day is shown by its titles or, where it
/// has none, by its first line of text.
pub fn summarize_logs(days: &Vec<LogDay>) -> (summary: Summary)
    ensures
        summary.eligible_days == days.len(),
        summary.total_entries == summary.days.len(),
        summary.total_entries <= summary.eligible_days,
        summary_views(summary.days@) == day_summaries(days@),
{
    let mut shown: Vec<DaySummary> = Vec::new();
    let mut i: usize = 0;
    proof {
        assert(days@.take(0) =~= Seq::<LogDay>::empty());
        assert(summary_views(shown@) =~= Seq::<DaySummaryView>::empty());
    }
    while i < days.len()
        invariant
            i <= days.len(),
            summary_views(shown@) == day_summaries(days@.take(i as int)),
        decreases days.len() - i,
    {
        let ghost before = summary_views(shown@);
        proof {
            assert(days@.take(i as int + 1).drop_last() =~= days@.take(i as int));
            assert(days@.take(i as int + 1).last() == days@[i as int]);
        }
        let day = &days[i];
        match &day.content {
            Some(content) => {
                let chars = chars_of(content.as_str());
                if !is_blank_text(&chars) {
                    let item = summarize_day(day.date, content.as_str());
                    shown.push(item);
                    proof {
                        assert(summary_views(shown@) =~= before.push(
                            day_summary(day.date, content@),
                        ));
                    }
                }
            },
            None => {},
        }
        i += 1;
    }
    proof {
        assert(days@.take(days.len() as int) =~= days@);
        lemma_entries_bounded(days@);
    }
    Summary { eligible_days: days.len(), total_entries: shown.len(), days: shown }
}

} // verus!
