use dailylog::text::{
    chars_of, find_text, is_whitespace_char, matches_at, same_text, split_lines, string_from,
    string_of, trim_bounds,
};

fn lines_of(s: &str) -> Vec<String> {
    split_lines(&chars_of(s)).iter().map(|l| string_from(l)).collect()
}

fn trimmed(s: &str) -> String {
    let v = chars_of(s);
    let (from, to) = trim_bounds(&v);
    string_of(&v, from, to)
}

#[test]
fn whitespace_is_what_the_standard_library_calls_whitespace() {
    let mut c: u32 = 0;
    while c <= 0x10FFFF {
        if let Some(ch) = char::from_u32(c) {
            assert_eq!(is_whitespace_char(ch), ch.is_whitespace(), "U+{:04X}", c);
        }
        c += 1;
    }
}

#[test]
fn chars_round_trip() {
    let s = "a\u{e9}\u{1F600}\n";
    let v = chars_of(s);
    assert_eq!(v, vec!['a', '\u{e9}', '\u{1F600}', '\n']);
    assert_eq!(string_from(&v), s);
    assert_eq!(string_of(&v, 1, 3), "\u{e9}\u{1F600}");
    assert_eq!(string_of(&v, 2, 2), "");
}

#[test]
fn lines_split_as_the_standard_library_does() {
    let samples = [
        "",
        "\n",
        "\r\n",
        "\r",
        "a",
        "a\n",
        "a\r\n",
        "a\r",
        "a\n\nb",
        "a\r\n\r\nb\r\n",
        "foo\nbar\n\r\nbaz\r",
        "\n\n",
        "x\r\r\ny",
        "\rx\n\r",
        "tail\n\n\n",
        "\u{2028}u\n\u{85}",
    ];
    for s in samples {
        let expected: Vec<String> = s.lines().map(|l| l.to_string()).collect();
        assert_eq!(lines_of(s), expected, "{:?}", s);
    }
}

#[test]
fn lines_of_exact_values() {
    assert_eq!(lines_of("a\r\nb\n\nc\r"), vec!["a", "b", "", "c\r"]);
    assert_eq!(lines_of(""), Vec::<String>::new());
    assert_eq!(lines_of("\n"), vec![""]);
}

#[test]
fn trim_as_the_standard_library_does() {
    let samples = [
        "",
        " ",
        "a",
        " a ",
        "\t\n a b \r\n",
        "\u{a0}x\u{3000}",
        "\u{2003}\u{2003}",
        "x\u{200b}",
        "  inner  space  ",
    ];
    for s in samples {
        assert_eq!(trimmed(s), s.trim(), "{:?}", s);
    }
}

#[test]
fn find_gives_the_first_occurrence() {
    let s = chars_of("## 09:00 - A - B");
    let sep = chars_of(" - ");
    assert_eq!(find_text(&s, &sep), Some(8));
    assert_eq!(find_text(&chars_of("no separator"), &sep), None);
    assert_eq!(find_text(&chars_of("-"), &sep), None);
    assert_eq!(find_text(&chars_of(" - "), &sep), Some(0));
    assert_eq!(find_text(&chars_of("abc"), &chars_of("")), Some(0));
    assert_eq!(find_text(&chars_of(""), &chars_of("")), Some(0));
    assert_eq!(find_text(&chars_of("aab"), &chars_of("ab")), Some(1));
}

#[test]
fn matches_at_checks_one_place() {
    let s = chars_of("### x");
    assert!(matches_at(&s, &chars_of("### "), 0));
    assert!(!matches_at(&s, &chars_of("## "), 0));
    assert!(matches_at(&s, &chars_of("## "), 1));
    assert!(!matches_at(&s, &chars_of("x "), 4));
    assert!(matches_at(&s, &chars_of(""), 5));
    assert!(!matches_at(&s, &chars_of(""), 6));
}

#[test]
fn same_text_compares_characters() {
    assert!(same_text(&chars_of("abc"), &chars_of("abc")));
    assert!(!same_text(&chars_of("abc"), &chars_of("abd")));
    assert!(!same_text(&chars_of("abc"), &chars_of("ab")));
    assert!(same_text(&chars_of(""), &chars_of("")));
}
