use guessing_game::parse::{parse_guess, parse_u32, trim_str};

#[test]
fn plain_numbers_parse() {
    assert_eq!(parse_u32("42"), Some(42));
    assert_eq!(parse_u32("0"), Some(0));
    assert_eq!(parse_u32("007"), Some(7));
    assert_eq!(parse_u32("+7"), Some(7));
    assert_eq!(parse_u32("4294967295"), Some(u32::MAX));
}

#[test]
fn malformed_numbers_are_rejected() {
    assert_eq!(parse_u32(""), None);
    assert_eq!(parse_u32("+"), None);
    assert_eq!(parse_u32("abc"), None);
    assert_eq!(parse_u32("12a"), None);
    assert_eq!(parse_u32("-1"), None);
    assert_eq!(parse_u32("1 2"), None);
    assert_eq!(parse_u32("++1"), None);
}

#[test]
fn overflowing_numbers_are_rejected() {
    assert_eq!(parse_u32("4294967296"), None);
    assert_eq!(parse_u32("99999999999999999999"), None);
}

#[test]
fn trimming_matches_std() {
    assert_eq!(trim_str("  hi  "), "hi");
    assert_eq!(trim_str("42\n"), "42");
    assert_eq!(trim_str("\t 42 \r\n"), "42");
    assert_eq!(trim_str(""), "");
    assert_eq!(trim_str(" \t\n"), "");
    assert_eq!(trim_str("a b"), "a b");
    for s in ["  42\n", "x y z ", "\u{a0}7\u{3000}", "", "no-trim"] {
        assert_eq!(trim_str(s), s.trim());
    }
}

#[test]
fn guesses_are_trimmed_then_parsed() {
    assert_eq!(parse_guess("42\n"), Some(42));
    assert_eq!(parse_guess("  10  "), Some(10));
    assert_eq!(parse_guess(" +3\r\n"), Some(3));
    assert_eq!(parse_guess("abc\n"), None);
    assert_eq!(parse_guess("\n"), None);
    for s in ["42\n", " 7 ", "abc", "+0", "4294967296", ""] {
        assert_eq!(parse_guess(s), s.trim().parse::<u32>().ok());
    }
}
