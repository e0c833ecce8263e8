use dailylog::date::ClockTime;
use dailylog::entry::{append_text_at, format_entry_at, parse_entry};
use dailylog::summary::extract_entry_titles;

fn written(raw: &str, hour: u32, minute: u32) -> String {
    let (title, body) = parse_entry(raw);
    format_entry_at(title.as_deref(), &body, ClockTime { hour, minute })
}

#[test]
fn title_survives_writing_and_reading_back() {
    for raw in [
        "Title only",
        "Fixed bug\n\nResolved the issue.",
        "  Spaced title  \nbody without blank line",
        "A - B - C\n\nbody",
        "## already a header\n\ntext",
        "12:30 - lunch",
        "- dash first\n\nx",
        "title\r\n\r\nbody\r\n",
        "x",
    ] {
        let (title, _) = parse_entry(raw);
        let title = title.expect("the first line is not blank");
        for (hour, minute) in [(0, 0), (9, 5), (23, 59)] {
            let titles = extract_entry_titles(&written(raw, hour, minute));
            assert_eq!(titles[0], title, "{:?}", raw);
        }
    }
}

#[test]
fn headers_in_the_body_follow_the_title() {
    let titles = extract_entry_titles(&written("Day\n\n# Morning\ntext\n### Evening - late", 8, 0));
    assert_eq!(titles, vec!["Day", "Morning", "Evening - late"]);
    let titles = extract_entry_titles(&written("Only", 8, 0));
    assert_eq!(titles, vec!["Only"]);
}

#[test]
fn blank_text_is_never_written() {
    let time = ClockTime { hour: 12, minute: 0 };
    for raw in ["", " ", "\n", "\r\n", "\t \n \u{2003}\n", "\u{a0}"] {
        assert_eq!(append_text_at(raw, time), None, "{:?}", raw);
    }
    for raw in ["x", "\nx", " \n \n.", "# h"] {
        assert!(append_text_at(raw, time).is_some(), "{:?}", raw);
    }
}

#[test]
fn untitled_entry_keeps_the_raw_text() {
    for raw in ["", "\n", "  \nbody\n", "\r\nx\r\n", " \t"] {
        let (title, body) = parse_entry(raw);
        assert_eq!(title, None);
        assert_eq!(body, raw);
    }
}

#[test]
fn titles_are_trimmed_lines() {
    for raw in ["  a b  \n\nc", "x\ny", "\u{3000}t\u{3000}"] {
        let (title, _) = parse_entry(raw);
        let title = title.expect("the first line is not blank");
        assert!(!title.is_empty());
        assert_eq!(title.trim(), title);
        assert!(!title.contains('\n'));
    }
}
