use channel_watch::channel::Channel;
use channel_watch::duration::{format_seconds, pluralize};
use channel_watch::text::{
    contains_white_space, decimal, is_white_space, push_decimal, replace_char,
    same_ignoring_ascii_case, to_ascii_lower,
};

#[test]
fn spans_in_words() {
    assert_eq!(format_seconds(1), "1 second");
    assert_eq!(format_seconds(59), "59 seconds");
    assert_eq!(format_seconds(60), "1 minute");
    assert_eq!(format_seconds(61), "1 minute and 1 second");
    assert_eq!(format_seconds(3600), "1 hour");
    assert_eq!(format_seconds(3661), "1 hour, 1 minute and 1 second");
    assert_eq!(format_seconds(86400), "1 day");
    assert_eq!(format_seconds(2 * 86400 + 5), "2 days and 5 seconds");
    assert_eq!(
        format_seconds(93784),
        "1 day, 2 hours, 3 minutes and 4 seconds"
    );
    assert_eq!(format_seconds(86400 + 7200 + 60), "1 day, 2 hours and 1 minute");
}

#[test]
fn no_words_for_nothing() {
    assert_eq!(format_seconds(0), "");
    assert_eq!(format_seconds(-1), "");
    assert_eq!(format_seconds(i64::MIN), "");
}

#[test]
fn longest_span() {
    assert_eq!(
        format_seconds(i64::MAX),
        "106751991167300 days, 15 hours, 30 minutes and 7 seconds"
    );
}

/// Reads a span back: counts in front of units add up.
fn read_span(text: &str) -> i64 {
    let mut total = 0;
    let mut count = 0;
    for c in text.chars() {
        let size = match c {
            '0'..='9' => {
                count = count * 10 + c.to_digit(10).unwrap() as i64;
                continue;
            }
            'd' => 86400,
            'h' => 3600,
            'm' => 60,
            's' => 1,
            _ => continue,
        };
        total += count * size;
        count = 0;
    }
    total
}

#[test]
fn spans_are_read_back() {
    for secs in (0..200_000).step_by(37) {
        assert_eq!(read_span(&format_seconds(secs)), secs);
    }
}

#[test]
fn plural_takes_the_s_off() {
    assert_eq!(pluralize("days", 2), "2 days");
    assert_eq!(pluralize("days", 1), "1 day");
    assert_eq!(pluralize("days", 0), "0 day");
    assert_eq!(pluralize("days", -3), "-3 day");
}

#[test]
fn numerals() {
    for n in [0, 9, 10, 99, 100, 250, -1, -10, i64::MAX, i64::MIN] {
        assert_eq!(decimal(n), n.to_string());
    }
    let mut text = String::from("n=");
    push_decimal(&mut text, u64::MAX);
    assert_eq!(text, "n=18446744073709551615");
}

#[test]
fn white_space_is_that_of_unicode() {
    for c in '\0'..=char::MAX {
        assert_eq!(is_white_space(c), c.is_whitespace(), "{c:?}");
    }
    assert!(contains_white_space("a b"));
    assert!(contains_white_space("ab\u{3000}"));
    assert!(!contains_white_space("ab"));
    assert!(!contains_white_space(""));
}

#[test]
fn ascii_case() {
    for c in '\0'..=char::MAX {
        assert_eq!(to_ascii_lower(c), c.to_ascii_lowercase());
    }
    for (l, r) in [
        ("", ""),
        ("a", "A"),
        ("museun", "MuSeUn"),
        ("a", "ab"),
        ("ab", "a"),
        ("\u{e4}", "\u{c4}"),
        ("k", "\u{212a}"),
    ] {
        assert_eq!(same_ignoring_ascii_case(l, r), l.eq_ignore_ascii_case(r));
    }
}

#[test]
fn replacing_a_character() {
    assert_eq!(replace_char("2022-10-11T02:20:39Z", 'Z', " +00"), "2022-10-11T02:20:39 +00");
    assert_eq!(replace_char("ZaZ", 'Z', ""), "a");
    assert_eq!(replace_char("abc", 'Z', "x"), "abc");
    assert_eq!(replace_char("", 'Z', "x"), "");
}

#[test]
fn channel_names() {
    assert_eq!(Channel::strip_prefix("#museun"), "museun");
    assert_eq!(Channel::strip_prefix("museun"), "museun");
    assert_eq!(Channel::strip_prefix("##museun"), "#museun");
    assert_eq!(Channel::strip_prefix("#"), "");
    assert_eq!(Channel::strip_prefix(""), "");
    assert_eq!(Channel::strip_prefix("#\u{df}x"), "\u{df}x");
    assert!(Channel::is_eq("#Museun", "museun"));
    assert!(Channel::is_eq("museun", "#MUSEUN"));
    assert!(Channel::is_eq("#", ""));
    assert!(!Channel::is_eq("##museun", "museun"));
    assert!(!Channel::is_eq("museun", "museum"));
}
