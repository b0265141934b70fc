use transcription_engine::text::{
    all_digits, blank, chars_of, contains, decimal_string, digit_of, ends_with, matches_at,
    parse_capped, starts_with, trim, two_digit_string,
};

fn c(s: &str) -> Vec<char> {
    s.chars().collect()
}

#[test]
fn texts_are_taken_apart_into_characters() {
    assert_eq!(chars_of(""), Vec::<char>::new());
    assert_eq!(chars_of("a한b"), vec!['a', '한', 'b']);
}

#[test]
fn texts_are_searched() {
    assert!(starts_with(&c("audio.txt"), &c("audio")));
    assert!(starts_with(&c("audio"), &c("")));
    assert!(starts_with(&c("audio"), &c("audio")));
    assert!(!starts_with(&c("audio"), &c("audio.")));
    assert!(!starts_with(&c("audio"), &c("udio")));
    assert!(ends_with(&c("audio.txt"), &c(".txt")));
    assert!(ends_with(&c(".txt"), &c(".txt")));
    assert!(ends_with(&c("x"), &c("")));
    assert!(!ends_with(&c("txt"), &c(".txt")));
    assert!(!ends_with(&c("audio.txt "), &c(".txt")));
    assert!(contains(&c("a transcription of"), &c("transcription")));
    assert!(contains(&c("transcription"), &c("transcription")));
    assert!(contains(&c("xxab"), &c("ab")));
    assert!(contains(&c("abxx"), &c("ab")));
    assert!(contains(&c(""), &c("")));
    assert!(contains(&c("abc"), &c("")));
    assert!(!contains(&c("transcriptio"), &c("transcription")));
    assert!(!contains(&c("aab"), &c("aba")));
    assert!(!contains(&c(""), &c("a")));
    assert!(matches_at(&c("hello"), &c("ll"), 2));
    assert!(!matches_at(&c("hello"), &c("ll"), 3));
    assert!(!matches_at(&c("hello"), &c("lo"), 4));
    assert!(matches_at(&c("hello"), &c(""), 5));
    assert!(!matches_at(&c("hello"), &c(""), 6));
    for (hay, needle) in [("abcabc", "cab"), ("aaaa", "aa"), ("한국어 텍스트", "텍스"), ("ab", "abc")] {
        assert_eq!(contains(&c(hay), &c(needle)), hay.contains(needle));
        assert_eq!(starts_with(&c(hay), &c(needle)), hay.starts_with(needle));
        assert_eq!(ends_with(&c(hay), &c(needle)), hay.ends_with(needle));
    }
}

#[test]
fn digits_are_read() {
    assert!(all_digits(&c("0123456789")));
    assert!(!all_digits(&c("")));
    assert!(!all_digits(&c("12a")));
    assert!(!all_digits(&c("٣")));
    assert!(!all_digits(&c("-1")));
    assert_eq!(digit_of('0'), 0);
    assert_eq!(digit_of('7'), 7);
    assert_eq!(digit_of('9'), 9);
    assert_eq!(parse_capped(&c("0"), 100), 0);
    assert_eq!(parse_capped(&c("007"), 100), 7);
    assert_eq!(parse_capped(&c("100"), 100), 100);
    assert_eq!(parse_capped(&c("101"), 100), 100);
    assert_eq!(parse_capped(&c("18446744073709551615"), u64::MAX as u128), u64::MAX as u128);
    assert_eq!(parse_capped(&c("18446744073709551616"), u64::MAX as u128), u64::MAX as u128);
    assert_eq!(parse_capped(&c("99999999999999999999999999999999999999999999999999"), 5), 5);
    assert_eq!(parse_capped(&c("5"), 0), 0);
    assert_eq!(parse_capped(&c("000"), 0), 0);
}

#[test]
fn numbers_are_written() {
    assert_eq!(decimal_string(0), "0");
    assert_eq!(decimal_string(9), "9");
    assert_eq!(decimal_string(10), "10");
    assert_eq!(decimal_string(1234567890), "1234567890");
    assert_eq!(decimal_string(u128::MAX), u128::MAX.to_string());
    assert_eq!(two_digit_string(0), "00");
    assert_eq!(two_digit_string(7), "07");
    assert_eq!(two_digit_string(10), "10");
    assert_eq!(two_digit_string(123), "123");
}

#[test]
fn blank_texts_hold_white_space_alone() {
    assert!(blank(""));
    assert!(blank(" \t\r\n"));
    assert!(blank("\u{3000}\u{a0}"));
    assert!(!blank(" a "));
    assert!(!blank("_"));
    for s in ["", "  ", " x", "\u{2003}", "\u{200b}"] {
        assert_eq!(blank(s), s.trim().is_empty());
    }
}

#[test]
fn white_space_is_trimmed_at_both_ends() {
    assert_eq!(trim(""), "");
    assert_eq!(trim("   "), "");
    assert_eq!(trim("a"), "a");
    assert_eq!(trim("  a b  "), "a b");
    assert_eq!(trim("\t\n a\u{a0}"), "a");
    assert_eq!(trim("\u{3000}한 글\u{2003}\r\n"), "한 글");
    for s in ["", " ", "x", " x", "x ", " x y ", "\n\nx\ty\n", "\u{200b} x \u{200b}", "  \u{85}x"] {
        assert_eq!(trim(s), s.trim());
    }
}
