use dailylog::config::default_summary_days;
use dailylog::date::{Date, Weekday};
use dailylog::summary::{
    extract_entry_titles, is_summary_day, parse_weekday, summarize_day, summarize_logs,
    summary_weekdays, summary_window, LogDay,
};

fn day(year: i32, month: u32, day: u32) -> Date {
    Date { year, month, day }
}

fn weekdays() -> Vec<Weekday> {
    summary_weekdays(&default_summary_days())
}

fn found(date: Date, content: Option<&str>) -> LogDay {
    LogDay { date, content: content.map(|c| c.to_string()) }
}

#[test]
fn titles_of_stamped_entries() {
    assert_eq!(
        extract_entry_titles("## 09:00 - Stand-up\n\nNotes\n\n## 10:00 - Review"),
        vec!["Stand-up", "Review"]
    );
}

#[test]
fn titles_of_other_headers() {
    assert_eq!(
        extract_entry_titles("# Big Header\n### Small Header"),
        vec!["Big Header", "Small Header"]
    );
}

#[test]
fn title_is_all_that_follows_the_first_separator() {
    assert_eq!(extract_entry_titles("## 09:00 - A - B"), vec!["A - B"]);
    assert_eq!(extract_entry_titles("## 09:00 - "), Vec::<String>::new());
    assert_eq!(extract_entry_titles("## 09:00 - x"), vec!["x"]);
    assert_eq!(extract_entry_titles("  ## a - b  "), vec!["b"]);
}

#[test]
fn lines_that_are_no_headers_carry_no_title() {
    assert_eq!(extract_entry_titles("## No separator"), Vec::<String>::new());
    assert_eq!(extract_entry_titles("#### Deep"), Vec::<String>::new());
    assert_eq!(extract_entry_titles("#NoSpace"), Vec::<String>::new());
    assert_eq!(extract_entry_titles("text - with - dashes"), Vec::<String>::new());
    assert_eq!(extract_entry_titles(""), Vec::<String>::new());
}

#[test]
fn header_marks_and_space_are_stripped() {
    assert_eq!(extract_entry_titles("#   Spaced   "), vec!["Spaced"]);
    assert_eq!(extract_entry_titles("### "), Vec::<String>::new());
    assert_eq!(extract_entry_titles("### x #"), vec!["x #"]);
    assert_eq!(extract_entry_titles("# #"), vec!["#"]);
}

#[test]
fn weekday_names_in_any_case() {
    assert_eq!(parse_weekday("Mon"), Some(Weekday::Mon));
    assert_eq!(parse_weekday("mondayy"), None);
    assert_eq!(parse_weekday("monday"), Some(Weekday::Mon));
    assert_eq!(parse_weekday("TUESDAY"), Some(Weekday::Tue));
    assert_eq!(parse_weekday("tue"), Some(Weekday::Tue));
    assert_eq!(parse_weekday("Wednesday"), Some(Weekday::Wed));
    assert_eq!(parse_weekday("wEd"), Some(Weekday::Wed));
    assert_eq!(parse_weekday("thursday"), Some(Weekday::Thu));
    assert_eq!(parse_weekday("THU"), Some(Weekday::Thu));
    assert_eq!(parse_weekday("Friday"), Some(Weekday::Fri));
    assert_eq!(parse_weekday("fri"), Some(Weekday::Fri));
    assert_eq!(parse_weekday("saturday"), Some(Weekday::Sat));
    assert_eq!(parse_weekday("Sat"), Some(Weekday::Sat));
    assert_eq!(parse_weekday("SUNDAY"), Some(Weekday::Sun));
    assert_eq!(parse_weekday("sun"), Some(Weekday::Sun));
}

#[test]
fn other_words_name_no_weekday() {
    assert_eq!(parse_weekday(""), None);
    assert_eq!(parse_weekday("mo"), None);
    assert_eq!(parse_weekday("mond"), None);
    assert_eq!(parse_weekday(" mon"), None);
    assert_eq!(parse_weekday("invalid"), None);
    assert_eq!(parse_weekday("m\u{f6}n"), None);
}

#[test]
fn weekday_names_match_as_with_full_lower_casing() {
    let names = [
        "monday", "mon", "tuesday", "tue", "wednesday", "wed", "thursday", "thu", "friday",
        "fri", "saturday", "sat", "sunday", "sun",
    ];
    let mut c: u32 = 0;
    while c <= 0x10FFFF {
        if let Some(ch) = char::from_u32(c) {
            let lowered: String = ch.to_lowercase().collect();
            if lowered.is_ascii() {
                for name in names {
                    for at in 0..name.len() {
                        let word = format!("{}{}{}", &name[..at], ch, &name[at + 1..]);
                        let expected = names.iter().any(|n| *n == word.to_lowercase());
                        assert_eq!(parse_weekday(&word).is_some(), expected, "{:?}", word);
                    }
                }
            } else {
                assert_eq!(parse_weekday(&format!("{}on", ch)), None, "U+{:04X}", c);
            }
        }
        c += 1;
    }
}

#[test]
fn configured_names_resolve_in_order_and_drop_the_unknown() {
    let names = vec![
        "Sun".to_string(),
        "noday".to_string(),
        "friday".to_string(),
        "".to_string(),
        "sun".to_string(),
    ];
    assert_eq!(summary_weekdays(&names), vec![Weekday::Sun, Weekday::Fri, Weekday::Sun]);
    assert_eq!(
        weekdays(),
        vec![Weekday::Mon, Weekday::Tue, Weekday::Wed, Weekday::Thu, Weekday::Fri]
    );
}

#[test]
fn summary_day_is_membership() {
    let allowed = weekdays();
    assert!(is_summary_day(Weekday::Mon, &allowed));
    assert!(is_summary_day(Weekday::Fri, &allowed));
    assert!(!is_summary_day(Weekday::Sat, &allowed));
    assert!(!is_summary_day(Weekday::Sun, &Vec::new()));
}

#[test]
fn window_of_a_week_holds_the_five_weekdays() {
    // 2024-01-17 is a Wednesday.
    let window = summary_window(day(2024, 1, 17), 7, &weekdays()).expect("the days exist");
    assert_eq!(
        window,
        vec![
            day(2024, 1, 17),
            day(2024, 1, 16),
            day(2024, 1, 15),
            day(2024, 1, 12),
            day(2024, 1, 11),
        ]
    );
}

#[test]
fn window_counts_back_from_today_across_months() {
    let all = vec![
        Weekday::Mon,
        Weekday::Tue,
        Weekday::Wed,
        Weekday::Thu,
        Weekday::Fri,
        Weekday::Sat,
        Weekday::Sun,
    ];
    assert_eq!(
        summary_window(day(2024, 3, 1), 3, &all),
        Some(vec![day(2024, 3, 1), day(2024, 2, 29), day(2024, 2, 28)])
    );
    assert_eq!(summary_window(day(2024, 3, 1), 0, &all), Some(Vec::new()));
    // 2024-03-03 is a Sunday.
    assert_eq!(
        summary_window(day(2024, 3, 3), 10, &vec![Weekday::Sun]),
        Some(vec![day(2024, 3, 3), day(2024, 2, 25)])
    );
}

#[test]
fn window_that_the_calendar_cannot_reach_is_none() {
    let all = vec![Weekday::Mon];
    assert_eq!(summary_window(day(2024, 2, 30), 1, &all), None);
    assert_eq!(summary_window(day(-262143, 1, 2), 3, &all), None);
    assert_eq!(summary_window(day(-262143, 1, 2), 2, &all).map(|w| w.len() <= 2), Some(true));
    assert_eq!(summary_window(day(2024, 2, 30), 0, &all), Some(Vec::new()));
}

#[test]
fn three_of_five_weekdays_is_sixty_percent() {
    let window = summary_window(day(2024, 1, 17), 7, &weekdays()).expect("the days exist");
    let contents = [
        Some("## 09:00 - Stand-up\n\nNotes\n"),
        None,
        Some("plain text\n"),
        Some("   \n"),
        Some("# Header\n"),
    ];
    let days: Vec<LogDay> =
        window.iter().zip(contents.iter()).map(|(d, c)| found(*d, *c)).collect();
    let summary = summarize_logs(&days);
    assert_eq!(summary.eligible_days, 5);
    assert_eq!(summary.total_entries, 3);
    let percent = summary.total_entries as f64 / summary.eligible_days as f64 * 100.0;
    assert_eq!(percent, 60.0);
    assert_eq!(summary.days.len(), 3);
    assert_eq!(summary.days[0].date, day(2024, 1, 17));
    assert_eq!(summary.days[0].lines, vec!["Stand-up"]);
    assert!(summary.days[0].titled);
    assert_eq!(summary.days[1].date, day(2024, 1, 15));
    assert_eq!(summary.days[1].lines, vec!["plain text"]);
    assert!(!summary.days[1].titled);
    assert_eq!(summary.days[2].date, day(2024, 1, 11));
    assert_eq!(summary.days[2].lines, vec!["Header"]);
}

#[test]
fn summary_without_entries_is_empty() {
    let days = vec![found(day(2024, 1, 17), None), found(day(2024, 1, 16), Some(" \n"))];
    let summary = summarize_logs(&days);
    assert_eq!(summary.eligible_days, 2);
    assert_eq!(summary.total_entries, 0);
    assert!(summary.days.is_empty());
    let none = summarize_logs(&Vec::new());
    assert_eq!((none.eligible_days, none.total_entries), (0, 0));
}

#[test]
fn day_without_titles_shows_its_first_line_of_text() {
    let shown = summarize_day(day(2024, 1, 1), "\n\n   \n  first words  \nsecond\n");
    assert_eq!(shown.lines, vec!["first words"]);
    assert!(!shown.titled);
    let titled = summarize_day(day(2024, 1, 1), "intro\n## 08:00 - A\n# B\n");
    assert_eq!(titled.lines, vec!["A", "B"]);
    assert!(titled.titled);
    let blank = summarize_day(day(2024, 1, 1), " \n");
    assert!(blank.lines.is_empty());
}
