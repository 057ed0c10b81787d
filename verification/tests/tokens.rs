use readings_probe::procstat::{parse_u64, split_spaces};
use readings_probe::reader::{event_label, metric_names};
use readings_probe::tokens::{separates, split_whitespace};

#[test]
fn whitespace_characters() {
    for c in ['\u{0}', 'a', '_', '0', '.', '-', '\u{1f}', '\u{200b}', '\u{feff}', '\u{2007}'] {
        assert_eq!(separates(c), c.is_whitespace());
    }
    for c in [' ', '\t', '\n', '\u{b}', '\u{c}', '\r', '\u{85}', '\u{a0}', '\u{1680}', '\u{2000}',
        '\u{200a}', '\u{2028}', '\u{2029}', '\u{202f}', '\u{205f}', '\u{3000}']
    {
        assert!(separates(c));
    }
}

#[test]
fn whitespace_agrees_with_the_standard_library_everywhere() {
    let mut code = 0u32;
    while code <= 0x10ffff {
        if let Some(c) = char::from_u32(code) {
            assert_eq!(separates(c), c.is_whitespace());
        }
        code += 1;
    }
}

#[test]
fn split_whitespace_gives_the_words() {
    assert!(split_whitespace("").is_empty());
    assert!(split_whitespace("  \t\n ").is_empty());
    assert_eq!(split_whitespace("one"), ["one"]);
    assert_eq!(split_whitespace("  one   two\tthree\n"), ["one", "two", "three"]);
    assert_eq!(split_whitespace("a\u{a0}b\u{3000}c"), ["a", "b", "c"]);
    let text = "  0.000   4       1000 \t x\r\ny ";
    let expected: Vec<&str> = text.split_whitespace().collect();
    assert_eq!(split_whitespace(text), expected);
}

#[test]
fn split_spaces_keeps_empty_fields() {
    assert_eq!(split_spaces(""), [""]);
    assert_eq!(split_spaces(" "), ["", ""]);
    assert_eq!(split_spaces("a"), ["a"]);
    assert_eq!(split_spaces("a b"), ["a", "b"]);
    assert_eq!(split_spaces("a  b "), ["a", "", "b", ""]);
    assert_eq!(split_spaces("a\tb c\n"), ["a\tb", "c\n"]);
    let text = " 12 (a b)  S 1 ";
    let expected: Vec<&str> = text.split(" ").collect();
    assert_eq!(split_spaces(text), expected);
}

#[test]
fn parse_u64_reads_decimal_numbers() {
    assert_eq!(parse_u64("0"), Some(0));
    assert_eq!(parse_u64("42"), Some(42));
    assert_eq!(parse_u64("+42"), Some(42));
    assert_eq!(parse_u64("007"), Some(7));
    assert_eq!(parse_u64("18446744073709551615"), Some(u64::MAX));
    assert_eq!(parse_u64("18446744073709551616"), None);
    assert_eq!(parse_u64("99999999999999999999999"), None);
    assert_eq!(parse_u64("184467440737095516150"), None);
    assert_eq!(parse_u64(""), None);
    assert_eq!(parse_u64("+"), None);
    assert_eq!(parse_u64("-1"), None);
    assert_eq!(parse_u64("++1"), None);
    assert_eq!(parse_u64("1+"), None);
    assert_eq!(parse_u64("12a"), None);
    assert_eq!(parse_u64(" 12"), None);
    assert_eq!(parse_u64("12\n"), None);
    assert_eq!(parse_u64("1.5"), None);
    assert_eq!(parse_u64("\u{663}"), None);
    for text in ["0", "+0", "+", "", "-0", "000", "18446744073709551615", "18446744073709551616",
        "1_000", "0x10", "९"]
    {
        assert_eq!(parse_u64(text), text.parse::<u64>().ok());
    }
}

#[test]
fn metric_names_of_a_header() {
    let header = "   time cor        vsz        rsz     rszmax    utime    stime       minf       majf      alloc       free       done   progress event";
    assert_eq!(metric_names(header), ["done", "progress"]);
    let bare = "   time cor        vsz        rsz     rszmax    utime    stime       minf       majf      alloc       free event";
    assert!(metric_names(bare).is_empty());
    assert!(metric_names("").is_empty());
    assert!(metric_names("a b c").is_empty());
    assert!(metric_names("1 2 3 4 5 6 7 8 9 10 11").is_empty());
    assert!(metric_names("1 2 3 4 5 6 7 8 9 10 11 12").is_empty());
    assert_eq!(metric_names("1 2 3 4 5 6 7 8 9 10 11 12 13"), ["12"]);
}

#[test]
fn event_label_of_a_row() {
    let row = "  1.500   4       1000       2000       3000 1.500000 0.000250          7          8         13         14         42 finish";
    assert_eq!(event_label(row, 1), Some("finish".to_string()));
    assert_eq!(event_label(row, 0), Some("42".to_string()));
    assert_eq!(event_label(row, 2), None);
    assert_eq!(event_label(row, usize::MAX), None);
    assert_eq!(event_label("", 0), None);
}
