use zetra::config::{access_ttl_minutes_setting, max_upload_mb_setting};
use zetra::handlers::auth::normalize_identifier;
use zetra::text::{
    concat2, is_blank, owned, parse_i64, parse_usize, same_text, trim, usize_to_decimal, white,
};

#[test]
fn integers_parse_as_std_does() {
    assert_eq!(max_upload_mb_setting(Some("42")), 42);
    assert_eq!(max_upload_mb_setting(Some("+42")), 42);
    assert_eq!(max_upload_mb_setting(Some("-0")), 100);
    assert_eq!(max_upload_mb_setting(Some("4 2")), 100);
    assert_eq!(max_upload_mb_setting(Some("18446744073709551616")), 100);
    assert_eq!(access_ttl_minutes_setting(Some("-9223372036854775808")), i64::MIN);
    assert_eq!(access_ttl_minutes_setting(Some("9223372036854775808")), 15);
    assert_eq!(access_ttl_minutes_setting(Some("-")), 15);
    assert_eq!(access_ttl_minutes_setting(Some("-0")), 0);
}

#[test]
fn unicode_case_and_white_space() {
    assert_eq!(normalize_identifier("\u{3000} ÄBC-Déf\t"), "äbc-déf");
    assert_eq!(normalize_identifier("ΣΑΣ"), "σας");
}

#[test]
fn plain_text_helpers() {
    assert!(is_blank("  \n\t"));
    assert!(is_blank(""));
    assert!(!is_blank(" x "));
    assert!(same_text("abc", "abc"));
    assert!(!same_text("abc", "abd"));
    assert!(!same_text("abc", "abcd"));
    assert_eq!(concat2("ab", "cd"), "abcd");
    assert_eq!(owned("xy"), "xy");
}

#[test]
fn integer_parsing_matches_std() {
    for s in ["", "+", "-", "0", "+0", "-0", "007", "42", "+42", "-42", "4 2", " 1", "1a",
              "18446744073709551615", "18446744073709551616", "9223372036854775807",
              "9223372036854775808", "-9223372036854775808", "-9223372036854775809", "+-1", "--1",
              "99999999999999999999999"] {
        assert_eq!(parse_usize(s), s.parse::<usize>().ok(), "usize {:?}", s);
        assert_eq!(parse_i64(s), s.parse::<i64>().ok(), "i64 {:?}", s);
    }
}

#[test]
fn decimal_rendering_matches_std() {
    for n in [0usize, 7, 10, 99, 100, 1_700_000_000, usize::MAX] {
        assert_eq!(usize_to_decimal(n), n.to_string());
    }
}

#[test]
fn trimming_matches_std() {
    for s in ["", "   ", " Ab ", "\t\n x y \r", "\u{3000}z\u{a0}", "\u{200b}q\u{200b}", "\u{85}é\u{2029}", "a"] {
        assert_eq!(trim(s), s.trim(), "{:?}", s);
    }
    for c in ['\u{0}', ' ', '\t', '\u{b}', '\u{1c}', '\u{85}', '\u{a0}', '\u{1680}', '\u{180e}', '\u{2000}',
              '\u{200a}', '\u{200b}', '\u{2028}', '\u{202f}', '\u{205f}', '\u{3000}', '\u{feff}', 'x'] {
        assert_eq!(white(c), c.is_whitespace(), "{:?}", c);
    }
    assert!(is_blank(" \u{3000}\t"));
    assert!(!is_blank(" . "));
}
