use minecraft_operator_core::strutil::{
    chars_eq_nocase, parse_u64, str_eq, u64_to_string,
};

#[test]
fn string_equality_is_by_contents() {
    assert!(str_eq("abc", "abc"));
    assert!(!str_eq("abc", "abd"));
    assert!(!str_eq("abc", "abcd"));
    assert!(str_eq("", ""));
    assert!(str_eq("\u{00e9}\u{4e16}", "\u{00e9}\u{4e16}"));
}

#[test]
fn case_insensitive_equality_folds_ascii_only() {
    assert!(chars_eq_nocase("Latest", "lAtEsT"));
    assert!(chars_eq_nocase("", ""));
    assert!(!chars_eq_nocase("latest", "latest "));
    assert!(!chars_eq_nocase("stra\u{00df}e", "stra\u{00df}E2"));
}

#[test]
fn decimal_rendering_has_exact_values() {
    assert_eq!(u64_to_string(0), "0");
    assert_eq!(u64_to_string(7), "7");
    assert_eq!(u64_to_string(120), "120");
    assert_eq!(u64_to_string(u64::MAX), "18446744073709551615");
}

#[test]
fn decimal_parsing_accepts_digits_only() {
    assert_eq!(parse_u64("0"), Some(0));
    assert_eq!(parse_u64("123"), Some(123));
    assert_eq!(parse_u64("0042"), Some(42));
    assert_eq!(parse_u64(""), None);
    assert_eq!(parse_u64("12a"), None);
    assert_eq!(parse_u64("-1"), None);
    assert_eq!(parse_u64(" 1"), None);
}

#[test]
fn decimal_parsing_respects_the_integer_limit() {
    assert_eq!(parse_u64("18446744073709551615"), Some(u64::MAX));
    assert_eq!(parse_u64("18446744073709551616"), None);
    assert_eq!(parse_u64("99999999999999999999"), None);
}

#[test]
fn rendering_then_parsing_round_trips() {
    for n in [0u64, 1, 9, 10, 99, 100, 4096, 1_000_000_007, u64::MAX] {
        assert_eq!(parse_u64(&u64_to_string(n)), Some(n));
    }
}
