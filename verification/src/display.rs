//! What a day's markdown looks like on a terminal: each line cut into spans
//! of one style. Colours and the writing itself are the caller's business.

use crate::date::{date_chars, date_text, Date};
use crate::text::{
    chars_of, copy_range, find, find_from, find_text, find_text_from, four_chars, is_blank,
    is_blank_text, lines, matches_at, push_all, split_lines, starts_with, string_from, string_of,
    three_chars, two_chars, views,
};
use crate::text_lemmas::lemma_find_bounds;
use vstd::prelude::*;

verus! {

/// How a span is shown.
#[derive(Clone, Copy, Debug, PartialEq, Eq, Structural)]
pub enum Style {
    Plain,
    /// A first-level header.
    H1,
    /// A second-level header.
    H2,
    /// A third-level header.
    H3,
    /// The bullet of a list item.
    Bullet,
    /// A code fence.
    Code,
    /// Text between two `**`.
    Bold,
    /// A line that frames a day's log.
    Banner,
}

/// A piece of a line in one style.
pub struct Span {
    pub style: Style,
    pub text: String,
}

/// What a span stands for.
pub struct SpanView {
    pub style: Style,
    pub text: Seq<char>,
}

impl View for Span {
    type V = SpanView;

    open spec fn view(&self) -> SpanView {
        SpanView { style: self.style, text: self.text@ }
    }
}

/// What the spans of a line stand for.
pub open spec fn span_views(line: Seq<Span>) -> Seq<SpanView> {
    Seq::new(line.len(), |i: int| line[i]@)
}

/// What lines of spans stand for.
pub open spec fn line_views(ls: Seq<Vec<Span>>) -> Seq<Seq<SpanView>> {
    Seq::new(ls.len(), |i: int| span_views(ls[i]@))
}

/// A span.
pub open spec fn span(style: Style, text: Seq<char>) -> SpanView {
    SpanView { style, text }
}

/// The mark that opens and closes bold text.
pub open spec fn bold_mark() -> Seq<char> {
    seq!['*', '*']
}

/// The bullet shown in place of a list item's mark.
pub open spec fn bullet() -> Seq<char> {
    seq!['\u{2022}', ' ']
}

/// Ordinary text cut at its bold parts. Each pair of `**`, taken from the
/// left, gives the plain text before it and the bold text inside it; what is
/// left after the last pair is plain.
pub open spec fn styled_text(s: Seq<char>) -> Seq<SpanView>
    decreases s.len(),
{
    match find(s, bold_mark()) {
        Some(open) => match find_from(s, bold_mark(), open + 2) {
            Some(close) => {
                proof {
                    lemma_find_bounds(s, bold_mark(), 0);
                    lemma_find_bounds(s, bold_mark(), open + 2);
                }
                seq![span(Style::Plain, s.take(open)), span(Style::Bold, s.subrange(open + 2, close))]
                    + styled_text(s.skip(close + 2))
            },
            None => seq![span(Style::Plain, s)],
        },
        None => seq![span(Style::Plain, s)],
    }
}

/// The spans of one line of markdown.
///
/// A header line is one span in the header's style, marks included. A list
/// item is a bullet and the item's text. A line that opens a code fence is
/// one code span. A blank line has no span. Any other line is ordinary text,
/// cut at its bold parts.
pub open spec fn styled_line(line: Seq<char>) -> Seq<SpanView> {
    if starts_with(line, seq!['#', ' ']) {
        seq![span(Style::H1, line)]
    } else if starts_with(line, seq!['#', '#', ' ']) {
        seq![span(Style::H2, line)]
    } else if starts_with(line, seq!['#', '#', '#', ' ']) {
        seq![span(Style::H3, line)]
    } else if starts_with(line, seq!['-', ' ']) || starts_with(line, seq!['*', ' ']) {
        seq![span(Style::Bullet, bullet()), span(Style::Plain, line.skip(2))]
    } else if starts_with(line, seq!['`', '`', '`']) {
        seq![span(Style::Code, line)]
    } else if is_blank(line) {
        Seq::empty()
    } else {
        styled_text(line)
    }
}

/// The spans of each of the given lines.
pub open spec fn styled_lines(ls: Seq<Seq<char>>) -> Seq<Seq<SpanView>> {
    Seq::new(ls.len(), |i: int| styled_line(ls[i]))
}

/// The spans of each line of a day's markdown.
pub open spec fn styled_markdown(content: Seq<char>) -> Seq<Seq<SpanView>> {
    styled_lines(lines(content))
}

fn one_span(style: Style, line: &Vec<char>) -> (spans: Vec<Span>)
    ensures
        span_views(spans@) == seq![span(style, line@)],
{
    let mut spans: Vec<Span> = Vec::new();
    spans.push(Span { style, text: string_from(line) });
    proof {
        assert(span_views(spans@) =~= seq![span(style, line@)]);
    }
    spans
}

/// Cuts ordinary text at its bold parts.
fn render_text(line: &Vec<char>) -> (spans: Vec<Span>)
    ensures
        span_views(spans@) == styled_text(line@),
{
    let mark = two_chars('*', '*');
    let mut spans: Vec<Span> = Vec::new();
    let mut from: usize = 0;
    proof {
        assert(line@.skip(0) =~= line@);
        assert(span_views(spans@) + styled_text(line@.skip(0)) =~= styled_text(line@));
    }
    loop
        invariant
            from <= line.len(),
            mark@ == bold_mark(),
            span_views(spans@) + styled_text(line@.skip(from as int)) == styled_text(line@),
        decreases line.len() - from,
    {
        let rest = copy_range(line, from, line.len());
        proof {
            assert(rest@ =~= line@.skip(from as int));
            lemma_find_bounds(rest@, mark@, 0);
        }
        let ghost before = span_views(spans@);
        let pair = match find_text(&rest, &mark) {
            Some(open) => match find_text_from(&rest, &mark, open + 2) {
                Some(close) => Some((open, close)),
                None => None,
            },
            None => None,
        };
        match pair {
            Some((open, close)) => {
                proof {
                    lemma_find_bounds(rest@, mark@, open as int + 2);
                    assert(rest@.take(open as int) =~= rest@.subrange(0, open as int));
                    assert(rest@.skip(close as int + 2) =~= line@.skip(from + close + 2));
                }
                spans.push(Span { style: Style::Plain, text: string_of(&rest, 0, open) });
                spans.push(Span { style: Style::Bold, text: string_of(&rest, open + 2, close) });
                proof {
                    assert(span_views(spans@) =~= before + seq![
                        span(Style::Plain, rest@.take(open as int)),
                        span(Style::Bold, rest@.subrange(open as int + 2, close as int)),
                    ]);
                    assert(span_views(spans@) + styled_text(rest@.skip(close as int + 2))
                        =~= before + styled_text(rest@));
                }
                from = from + close + 2;
            },
            None => {
                spans.push(Span { style: Style::Plain, text: string_from(&rest) });
                proof {
                    assert(span_views(spans@) =~= before + seq![span(Style::Plain, rest@)]);
                    assert(styled_text(rest@) =~= seq![span(Style::Plain, rest@)]);
                }
                return spans;
            },
        }
    }
}

/// Cuts one line of markdown into spans.
pub fn render_line(line: &Vec<char>) -> (spans: Vec<Span>)
    ensures
        span_views(spans@) == styled_line(line@),
{
    let h1 = two_chars('#', ' ');
    let h2 = three_chars('#', '#', ' ');
    let h3 = four_chars('#', '#', '#', ' ');
    let dash = two_chars('-', ' ');
    let star = two_chars('*', ' ');
    let fence = three_chars('`', '`', '`');
    if matches_at(line, &h1, 0) {
        one_span(Style::H1, line)
    } else if matches_at(line, &h2, 0) {
        one_span(Style::H2, line)
    } else if matches_at(line, &h3, 0) {
        one_span(Style::H3, line)
    } else if matches_at(line, &dash, 0) || matches_at(line, &star, 0) {
        let mark = two_chars('\u{2022}', ' ');
        let mut spans: Vec<Span> = Vec::new();
        spans.push(Span { style: Style::Bullet, text: string_from(&mark) });
        spans.push(Span { style: Style::Plain, text: string_of(line, 2, line.len()) });
        proof {
            assert(line@.skip(2) =~= line@.subrange(2, line.len() as int));
            assert(span_views(spans@) =~= styled_line(line@));
        }
        spans
    } else if matches_at(line, &fence, 0) {
        one_span(Style::Code, line)
    } else if is_blank_text(line) {
        let spans: Vec<Span> = Vec::new();
        proof {
            assert(span_views(spans@) =~= styled_line(line@));
        }
        spans
    } else {
        render_text(line)
    }
}

/// Cuts a day's markdown into lines of spans, ready to be shown.
pub fn render_markdown_to_terminal(content: &str) -> (shown: Vec<Vec<Span>>)
    ensures
        line_views(shown@) == styled_markdown(content@),
{
    let chars = chars_of(content);
    let ls = split_lines(&chars);
    let mut shown: Vec<Vec<Span>> = Vec::new();
    let mut i: usize = 0;
    while i < ls.len()
        invariant
            i <= ls.len(),
            views(ls@) == lines(content@),
            shown@.len() == i,
            forall|k: int| 0 <= k < i ==> span_views(#[trigger] shown@[k]@) == styled_line(ls@[k]@),
        decreases ls.len() - i,
    {
        let spans = render_line(&ls[i]);
        shown.push(spans);
        i += 1;
    }
    proof {
        assert(line_views(shown@) =~= styled_markdown(content@));
    }
    shown
}

/// The banner above a day's log: `=== Log entry for YYYY-MM-DD ===`.
pub open spec fn entry_banner(date: Date) -> Seq<char> {
    "=== Log entry for "@ + date_text(date) + " ==="@
}

/// A day's markdown between two banners: the banner that names the day,
/// the lines of the markdown, and the closing banner `footer`.
pub open spec fn framed_markdown(date: Date, content: Seq<char>, footer: Seq<char>) -> Seq<
    Seq<SpanView>,
> {
    seq![seq![span(Style::Banner, entry_banner(date))]] + styled_markdown(content) + seq![
        seq![span(Style::Banner, footer)],
    ]
}

fn render_framed(date: Date, content: &str, footer: &str) -> (shown: Vec<Vec<Span>>)
    ensures
        line_views(shown@) == framed_markdown(date, content@, footer@),
{
    let mut banner = chars_of("=== Log entry for ");
    let day = date_chars(date);
    push_all(&mut banner, &day);
    let tail = chars_of(" ===");
    push_all(&mut banner, &tail);
    proof {
        assert(banner@ =~= entry_banner(date));
    }
    let mut shown: Vec<Vec<Span>> = Vec::new();
    shown.push(one_span(Style::Banner, &banner));
    let mut body = render_markdown_to_terminal(content);
    proof {
        assert(line_views(shown@) =~= seq![seq![span(Style::Banner, entry_banner(date))]]);
    }
    shown.append(&mut body);
    let closing = chars_of(footer);
    shown.push(one_span(Style::Banner, &closing));
    proof {
        assert(line_views(shown@) =~= framed_markdown(date, content@, footer@));
    }
    shown
}

/// What there is to show of the previous day.
pub enum PreviousDayView {
    /// The day has no file.
    Missing,
    /// The day's file is blank.
    Empty,
    /// The day's log, framed by banners.
    Entry(Vec<Vec<Span>>),
}

/// Decides what to show of the log of `date`, given what its file holds
/// (`None` when there is no file): nothing but a word on a missing or blank
/// file, and otherwise the markdown between `=== Log entry for YYYY-MM-DD
/// ===` and `=== End of log entry ===`.
pub fn view_previous_day_log(date: Date, content: Option<&str>) -> (view: PreviousDayView)
    ensures
        match view {
            PreviousDayView::Missing => content is None,
            PreviousDayView::Empty => content matches Some(c) && is_blank(c@),
            PreviousDayView::Entry(shown) => content matches Some(c) && !is_blank(c@)
                && line_views(shown@) == framed_markdown(date, c@, "=== End of log entry ==="@),
        },
{
    match content {
        None => PreviousDayView::Missing,
        Some(c) => {
            let chars = chars_of(c);
            if is_blank_text(&chars) {
                PreviousDayView::Empty
            } else {
                PreviousDayView::Entry(render_framed(date, c, "=== End of log entry ==="))
            }
        },
    }
}

/// Decides what to show before more is added to the log of `date`: the
/// existing entry between `=== Log entry for YYYY-MM-DD ===` and `=== End of
/// existing entry ===`, or nothing when the day has no file or a blank one,
/// so that the entry will be the day's first.
pub fn add_to_previous_day_log(date: Date, existing: Option<&str>) -> (shown: Option<
    Vec<Vec<Span>>,
>)
    ensures
        shown is Some <==> (existing matches Some(c) && !is_blank(c@)),
        shown matches Some(ls) ==> line_views(ls@) == framed_markdown(
            date,
            existing->0@,
            "=== End of existing entry ==="@,
        ),
{
    match existing {
        None => None,
        Some(c) => {
            let chars = chars_of(c);
            if is_blank_text(&chars) {
                None
            } else {
                Some(render_framed(date, c, "=== End of existing entry ==="))
            }
        },
    }
}

} // verus!
