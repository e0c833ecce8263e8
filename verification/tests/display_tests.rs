use dailylog::date::Date;
use dailylog::display::{
    add_to_previous_day_log, render_line, render_markdown_to_terminal, view_previous_day_log,
    PreviousDayView, Span, Style,
};
use dailylog::text::chars_of;

fn spans_of(line: &str) -> Vec<(Style, String)> {
    render_line(&chars_of(line)).into_iter().map(|s| (s.style, s.text)).collect()
}

fn pairs(line: &[Span]) -> Vec<(Style, String)> {
    line.iter().map(|s| (s.style, s.text.clone())).collect()
}

fn one(style: Style, text: &str) -> Vec<(Style, String)> {
    vec![(style, text.to_string())]
}

#[test]
fn headers_keep_their_marks() {
    assert_eq!(spans_of("# Title"), one(Style::H1, "# Title"));
    assert_eq!(spans_of("## 09:00 - Entry"), one(Style::H2, "## 09:00 - Entry"));
    assert_eq!(spans_of("### Small"), one(Style::H3, "### Small"));
}

#[test]
fn header_needs_its_mark_at_the_very_start() {
    assert_eq!(spans_of(" # Title"), one(Style::Plain, " # Title"));
    assert_eq!(spans_of("#### Deep"), one(Style::Plain, "#### Deep"));
    assert_eq!(spans_of("#Title"), one(Style::Plain, "#Title"));
}

#[test]
fn list_items_get_a_bullet() {
    let item = vec![(Style::Bullet, "\u{2022} ".to_string()), (Style::Plain, "milk".to_string())];
    assert_eq!(spans_of("- milk"), item);
    assert_eq!(spans_of("* milk"), item);
    assert_eq!(
        spans_of("- "),
        vec![(Style::Bullet, "\u{2022} ".to_string()), (Style::Plain, String::new())]
    );
}

#[test]
fn code_fences_are_code() {
    assert_eq!(spans_of("```rust"), one(Style::Code, "```rust"));
    assert_eq!(spans_of("```"), one(Style::Code, "```"));
}

#[test]
fn blank_lines_have_no_span() {
    assert_eq!(spans_of(""), Vec::new());
    assert_eq!(spans_of("  \t "), Vec::new());
}

#[test]
fn bold_parts_are_cut_out() {
    assert_eq!(
        spans_of("a **b** c"),
        vec![
            (Style::Plain, "a ".to_string()),
            (Style::Bold, "b".to_string()),
            (Style::Plain, " c".to_string()),
        ]
    );
    assert_eq!(
        spans_of("**x****y**"),
        vec![
            (Style::Plain, String::new()),
            (Style::Bold, "x".to_string()),
            (Style::Plain, String::new()),
            (Style::Bold, "y".to_string()),
            (Style::Plain, String::new()),
        ]
    );
}

#[test]
fn a_mark_without_its_partner_stays_plain() {
    assert_eq!(spans_of("a **b c"), one(Style::Plain, "a **b c"));
    assert_eq!(spans_of("***"), one(Style::Plain, "***"));
    assert_eq!(
        spans_of("x **y** z ** w"),
        vec![
            (Style::Plain, "x ".to_string()),
            (Style::Bold, "y".to_string()),
            (Style::Plain, " z ** w".to_string()),
        ]
    );
    assert_eq!(
        spans_of("****"),
        vec![
            (Style::Plain, String::new()),
            (Style::Bold, String::new()),
            (Style::Plain, String::new()),
        ]
    );
}

#[test]
fn markdown_is_rendered_line_by_line() {
    let shown = render_markdown_to_terminal("# T\n\ntext\r\n- item\n");
    assert_eq!(shown.len(), 4);
    assert_eq!(pairs(&shown[0]), one(Style::H1, "# T"));
    assert_eq!(pairs(&shown[1]), Vec::new());
    assert_eq!(pairs(&shown[2]), one(Style::Plain, "text"));
    assert_eq!(pairs(&shown[3])[1], (Style::Plain, "item".to_string()));
    assert!(render_markdown_to_terminal("").is_empty());
}

#[test]
fn previous_day_missing_empty_or_shown() {
    let date = Date { year: 2024, month: 1, day: 14 };
    assert!(matches!(view_previous_day_log(date, None), PreviousDayView::Missing));
    assert!(matches!(view_previous_day_log(date, Some("")), PreviousDayView::Empty));
    assert!(matches!(view_previous_day_log(date, Some(" \n\n")), PreviousDayView::Empty));
    match view_previous_day_log(date, Some("## 09:00 - A\n\nnote\n")) {
        PreviousDayView::Entry(lines) => {
            assert_eq!(lines.len(), 5);
            assert_eq!(pairs(&lines[0]), one(Style::Banner, "=== Log entry for 2024-01-14 ==="));
            assert_eq!(pairs(&lines[1]), one(Style::H2, "## 09:00 - A"));
            assert_eq!(pairs(&lines[2]), Vec::new());
            assert_eq!(pairs(&lines[3]), one(Style::Plain, "note"));
            assert_eq!(pairs(&lines[4]), one(Style::Banner, "=== End of log entry ==="));
        }
        _ => panic!("the day has an entry"),
    }
}

#[test]
fn existing_entry_is_shown_before_more_is_added() {
    let date = Date { year: 2023, month: 12, day: 31 };
    assert!(add_to_previous_day_log(date, None).is_none());
    assert!(add_to_previous_day_log(date, Some("\n \n")).is_none());
    let lines = add_to_previous_day_log(date, Some("note")).expect("the day has an entry");
    assert_eq!(lines.len(), 3);
    assert_eq!(pairs(&lines[0]), one(Style::Banner, "=== Log entry for 2023-12-31 ==="));
    assert_eq!(pairs(&lines[1]), one(Style::Plain, "note"));
    assert_eq!(pairs(&lines[2]), one(Style::Banner, "=== End of existing entry ==="));
}
