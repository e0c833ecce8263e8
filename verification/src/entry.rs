//! Journal entries: splitting what the user wrote into a title and a body,
//! in the manner of a commit message.

use crate::calendar::{date_before, days_before, local_now};
use crate::date::{clock_chars, clock_text, date_chars, date_text, ClockTime, Date};
use crate::laws::law_blank_text_writes_nothing;
use crate::text::{
    chars_of, is_blank, is_blank_text, join_lines, lines, push_all, same_text, slice_text,
    split_lines, string_from, string_of, text_of, trim, trim_bounds, views,
};
use crate::text_lemmas::lemma_trim_twice;
use vstd::prelude::*;

verus! {

/// What an entry's raw text stands for.
pub struct ParsedEntry {
    /// The first line, trimmed; `None` when that line is blank or the text
    /// has no line at all.
    pub title: Option<Seq<char>>,
    /// What follows the title. Without a title it is the raw text, untouched.
    pub body: Seq<char>,
}

/// The index of the first blank line at or after `i`, or the number of lines
/// when no such line follows.
pub open spec fn first_blank_line(ls: Seq<Seq<char>>, i: int) -> int
    decreases ls.len() - i,
{
    if 0 <= i < ls.len() && !is_blank(ls[i]) {
        first_blank_line(ls, i + 1)
    } else {
        i
    }
}

/// The index of the line with which the body begins: the line after the
/// first blank line that follows the title, or the second line when no blank
/// line follows the title.
pub open spec fn body_start(ls: Seq<Seq<char>>) -> int {
    let blank = first_blank_line(ls, 1);
    if blank < ls.len() {
        blank + 1
    } else {
        1
    }
}

/// The entry that the raw text `raw` stands for.
pub open spec fn parse(raw: Seq<char>) -> ParsedEntry {
    let ls = lines(raw);
    if ls.len() == 0 {
        ParsedEntry { title: None, body: Seq::empty() }
    } else if is_blank(ls[0]) {
        ParsedEntry { title: None, body: raw }
    } else {
        ParsedEntry {
            title: Some(trim(ls[0])),
            body: trim(join_lines(ls.skip(body_start(ls)))),
        }
    }
}

/// The lines `ls[from..]` joined with line feeds.
pub fn join_from(ls: &Vec<Vec<char>>, from: usize) -> (out: Vec<char>)
    requires
        from <= ls.len(),
    ensures
        out@ == join_lines(views(ls@).skip(from as int)),
{
    let mut out: Vec<char> = Vec::new();
    let mut i: usize = from;
    let ghost all = views(ls@);
    proof {
        assert(all.subrange(from as int, from as int) =~= Seq::<Seq<char>>::empty());
    }
    while i < ls.len()
        invariant
            from <= i <= ls.len(),
            all == views(ls@),
            out@ == join_lines(all.subrange(from as int, i as int)),
        decreases ls.len() - i,
    {
        if i > from {
            out.push('\n');
        }
        let line = &ls[i];
        push_all(&mut out, line);
        proof {
            let upto = all.subrange(from as int, i as int + 1);
            assert(upto.drop_last() =~= all.subrange(from as int, i as int));
            assert(upto.last() == line@);
            assert(out@ =~= join_lines(upto));
        }
        i += 1;
    }
    proof {
        assert(all.subrange(from as int, ls.len() as int) =~= all.skip(from as int));
    }
    out
}

/// Splits raw entry text into a title and a body.
///
/// The title is the first line, trimmed. The body is what follows the first
/// blank line after the title, or everything after the first line when no
/// blank line follows; it is trimmed. When the first line is blank there is
/// no title, and the body is the raw text as it stands.
pub fn parse_entry(content: &str) -> (r: (Option<String>, String))
    ensures
        text_of(r.0) == parse(content@).title,
        r.1@ == parse(content@).body,
        r.0 is None ==> r.1@ == content@,
        r.0 is Some ==> trim(r.1@) == r.1@,
{
    proof {
        lemma_trim_twice(join_lines(lines(content@).skip(body_start(lines(content@)))));
    }
    let chars = chars_of(content);
    let ls = split_lines(&chars);
    if ls.len() == 0 {
        proof {
            assert(content@ =~= Seq::<char>::empty());
        }
        return (None, String::new());
    }
    let (title_start, title_end) = trim_bounds(&ls[0]);
    if title_start == title_end {
        return (None, content.to_owned());
    }
    let title = string_of(&ls[0], title_start, title_end);
    let mut blank: usize = 1;
    while blank < ls.len() && !is_blank_text(&ls[blank])
        invariant
            1 <= blank <= ls.len(),
            first_blank_line(views(ls@), 1) == first_blank_line(views(ls@), blank as int),
        decreases ls.len() - blank,
    {
        blank += 1;
    }
    let start: usize = if blank < ls.len() {
        blank + 1
    } else {
        1
    };
    let joined = join_from(&ls, start);
    let (body_from, body_to) = trim_bounds(&joined);
    let body = string_of(&joined, body_from, body_to);
    (Some(title), body)
}

/// Whether an entry has a title to show: one that is present and not empty.
pub open spec fn has_title(title: Option<Seq<char>>) -> bool {
    title matches Some(t) && t.len() > 0
}

/// The header line of a titled entry written at `time`: `## HH:MM - title`.
pub open spec fn header_line(title: Seq<char>, time: ClockTime) -> Seq<char> {
    seq!['#', '#', ' '] + clock_text(time) + seq![' ', '-', ' '] + title
}

/// The markdown fragment for an entry written at `time`.
///
/// With a title it is the header line, followed by a blank line and the body
/// when there is a body. Without one it is the body alone. Each ends in a
/// line feed; an entry with neither title nor body gives the empty text.
pub open spec fn fragment(title: Option<Seq<char>>, body: Seq<char>, time: ClockTime) -> Seq<
    char,
> {
    if has_title(title) {
        let head = header_line(title->0, time) + seq!['\n'];
        if body.len() == 0 {
            head
        } else {
            head + seq!['\n'] + body + seq!['\n']
        }
    } else if body.len() == 0 {
        Seq::empty()
    } else {
        body + seq!['\n']
    }
}

/// Renders an entry written at `time` as a markdown fragment.
pub fn format_entry_at(title: Option<&str>, body: &str, time: ClockTime) -> (out: String)
    ensures
        out@ == fragment(slice_text(title), body@, time),
{
    let body_chars = chars_of(body);
    let title_chars = match title {
        Some(t) => chars_of(t),
        None => Vec::new(),
    };
    let mut out: Vec<char> = Vec::new();
    if title_chars.len() > 0 {
        out.push('#');
        out.push('#');
        out.push(' ');
        let stamp = clock_chars(time);
        push_all(&mut out, &stamp);
        out.push(' ');
        out.push('-');
        out.push(' ');
        push_all(&mut out, &title_chars);
        proof {
            assert(out@ =~= header_line(title_chars@, time));
        }
        out.push('\n');
        if body_chars.len() > 0 {
            out.push('\n');
            push_all(&mut out, &body_chars);
            out.push('\n');
        }
    } else if body_chars.len() > 0 {
        push_all(&mut out, &body_chars);
        out.push('\n');
    }
    proof {
        assert(out@ =~= fragment(slice_text(title), body@, time));
    }
    string_from(&out)
}

/// Renders an entry written now as a markdown fragment.
///
/// The clock is read at the call. Whatever it shows, the result is the
/// fragment for some time of day; an entry without a title does not depend on
/// the clock at all.
pub fn format_entry(title: Option<&str>, body: &str) -> (out: String)
    ensures
        exists|time: ClockTime|
            time.hour <= 23 && time.minute <= 59 && out@ == #[trigger] fragment(
                slice_text(title),
                body@,
                time,
            ),
{
    let now = local_now();
    format_entry_at(title, body, now.time)
}

/// What appending the raw text `raw` at `time` adds to the day's file: the
/// entry's fragment and one more line feed, or nothing when the fragment is
/// blank.
pub open spec fn appended_text(raw: Seq<char>, time: ClockTime) -> Option<Seq<char>> {
    let entry = parse(raw);
    let text = fragment(entry.title, entry.body, time);
    if is_blank(text) {
        None
    } else {
        Some(text + seq!['\n'])
    }
}

/// The text that an entry written at `time` adds to the end of the day's
/// file.
///
/// `None` means that nothing is written: the file is neither opened nor
/// created. That is the case exactly when the entry's fragment is blank,
/// which it is exactly when the raw text is.
pub fn append_text_at(content: &str, time: ClockTime) -> (added: Option<String>)
    ensures
        text_of(added) == appended_text(content@, time),
        added is None <==> is_blank(content@),
{
    proof {
        law_blank_text_writes_nothing(content@, time);
    }
    let (title, body) = parse_entry(content);
    let formatted = match &title {
        Some(t) => format_entry_at(Some(t.as_str()), body.as_str(), time),
        None => format_entry_at(None, body.as_str(), time),
    };
    let mut chars = chars_of(formatted.as_str());
    if is_blank_text(&chars) {
        None
    } else {
        chars.push('\n');
        Some(string_from(&chars))
    }
}

/// The text that an entry written now adds to the end of the day's file.
///
/// The clock is read at the call; the result is what `append_text_at` gives
/// for some time of day. Whether anything is written does not depend on the
/// clock: blank text is never written, and any other text always is.
pub fn append_to_log(content: &str) -> (added: Option<String>)
    ensures
        exists|time: ClockTime|
            time.hour <= 23 && time.minute <= 59 && text_of(added) == #[trigger] appended_text(
                content@,
                time,
            ),
        added is None <==> is_blank(content@),
{
    let now = local_now();
    append_text_at(content, now.time)
}

/// What the day's file holds once `added` is appended to it. `None` stands
/// for a file that does not exist: appending to it creates it, and appending
/// nothing leaves it absent.
pub open spec fn log_after_append(log: Option<Seq<char>>, added: Option<Seq<char>>) -> Option<
    Seq<char>,
> {
    match added {
        None => log,
        Some(text) => match log {
            Some(held) => Some(held + text),
            None => Some(text),
        },
    }
}

/// What the day's file holds once `added` is appended to what it held
/// before, where `None` stands for no file and for nothing to append.
pub fn updated_log(log: Option<&str>, added: Option<&str>) -> (after: Option<String>)
    ensures
        text_of(after) == log_after_append(slice_text(log), slice_text(added)),
{
    match added {
        None => match log {
            Some(held) => Some(held.to_owned()),
            None => None,
        },
        Some(text) => {
            let mut out = match log {
                Some(held) => chars_of(held),
                None => Vec::new(),
            };
            let more = chars_of(text);
            let ghost before = out@;
            push_all(&mut out, &more);
            proof {
                if log is None {
                    assert(before + more@ =~= more@);
                }
            }
            Some(string_from(&out))
        },
    }
}

/// What to do with the day's file after it was edited in place.
#[derive(Clone, Copy, Debug, PartialEq, Eq, Structural)]
pub enum EditOutcome {
    /// Replace the file's content by the edited text, as it stands.
    Write,
    /// Delete the file.
    Remove,
    /// Leave the file, or its absence, as it is.
    Keep,
}

/// The outcome of editing a day's file in place. `existed` says whether the
/// file was there, `existing` is what it held (empty when it was not there)
/// and `edited` is what came back from the editor.
pub open spec fn edit_decision(existed: bool, existing: Seq<char>, edited: Seq<char>)
    -> EditOutcome {
    if edited != existing && !is_blank(edited) {
        EditOutcome::Write
    } else if is_blank(edited) && existed {
        EditOutcome::Remove
    } else {
        EditOutcome::Keep
    }
}

/// Decides what becomes of a day's file after an edit in place: a changed,
/// non-blank text is written, a blank text removes a file that existed, and
/// anything else leaves things as they are.
pub fn edit_today_log(existed: bool, existing: &str, edited: &str) -> (outcome: EditOutcome)
    ensures
        outcome == edit_decision(existed, existing@, edited@),
{
    let old_chars = chars_of(existing);
    let new_chars = chars_of(edited);
    let blank = is_blank_text(&new_chars);
    if !same_text(&new_chars, &old_chars) && !blank {
        EditOutcome::Write
    } else if blank && existed {
        EditOutcome::Remove
    } else {
        EditOutcome::Keep
    }
}

/// The path of the log file for `date` in the directory `log_dir`:
/// `{log_dir}/YYYY-MM-DD.md`.
pub open spec fn log_path(log_dir: Seq<char>, date: Date) -> Seq<char> {
    log_dir + seq!['/'] + date_text(date) + seq!['.', 'm', 'd']
}

/// The path of the log file for `date`.
pub fn get_log_file_path_for_date(log_dir: &str, date: Date) -> (path: String)
    ensures
        path@ == log_path(log_dir@, date),
{
    let mut out = chars_of(log_dir);
    out.push('/');
    let name = date_chars(date);
    push_all(&mut out, &name);
    out.push('.');
    out.push('m');
    out.push('d');
    proof {
        assert(out@ =~= log_path(log_dir@, date));
    }
    string_from(&out)
}

/// The path of the log file for the day before `today`; `None` when the
/// calendar has no such day.
pub open spec fn previous_day_path(log_dir: Seq<char>, today: Date) -> Option<Seq<char>> {
    match date_before(today, 1) {
        Some(day) => Some(log_path(log_dir, day)),
        None => None,
    }
}

/// The path of the log file for the day before `today`.
pub fn previous_day_log_path_from(log_dir: &str, today: Date) -> (path: Option<String>)
    ensures
        text_of(path) == previous_day_path(log_dir@, today),
{
    match days_before(today, 1) {
        Some(day) => Some(get_log_file_path_for_date(log_dir, day)),
        None => None,
    }
}

/// The path of today's log file, by the local calendar.
pub fn get_log_file_path(log_dir: &str) -> (path: String)
    ensures
        exists|today: Date|
            1 <= today.month <= 12 && 1 <= today.day <= 31 && path@ == #[trigger] log_path(
                log_dir@,
                today,
            ),
{
    let now = local_now();
    get_log_file_path_for_date(log_dir, now.date)
}

/// The path of yesterday's log file, by the local calendar.
pub fn get_previous_day_log_path(log_dir: &str) -> (path: Option<String>)
    ensures
        exists|today: Date|
            1 <= today.month <= 12 && 1 <= today.day <= 31 && text_of(path)
                == #[trigger] previous_day_path(log_dir@, today),
{
    let now = local_now();
    previous_day_log_path_from(log_dir, now.date)
}

} // verus!
