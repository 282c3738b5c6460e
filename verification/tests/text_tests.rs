use restic_snapshot::text::best_effort_decode_to_string;
use restic_snapshot::text::decimal_string;
use restic_snapshot::text::drop_enclosing_new_lines;
use restic_snapshot::text::eq_ignore_ascii_case;
use restic_snapshot::text::parse_decimal;

#[test]
fn decode_valid_utf8_is_identity_without_marker() {
    let out = best_effort_decode_to_string(b"hello world".to_vec());
    assert_eq!(out, "hello world");
    let out = best_effort_decode_to_string("héllo ∆".as_bytes().to_vec());
    assert_eq!(out, "héllo ∆");
    let out = best_effort_decode_to_string(Vec::new());
    assert_eq!(out, "");
}

#[test]
fn decode_invalid_utf8_is_marked_and_never_fails() {
    let out = best_effort_decode_to_string(vec![0xff, 0xfe, b'a']);
    assert!(out.starts_with("<Best Effort Decoding> "));
    assert!(out.ends_with('a'));
    let out = best_effort_decode_to_string(vec![0xc3]);
    assert!(out.starts_with("<Best Effort Decoding> "));
}

#[test]
fn decode_invalid_utf8_keeps_valid_portions() {
    let out = best_effort_decode_to_string(vec![b'o', b'k', 0x80, b'!']);
    assert_eq!(out, format!("<Best Effort Decoding> ok{}!", '\u{FFFD}'));
}

#[test]
fn trim_strips_enclosing_newline_runs_only() {
    assert_eq!(drop_enclosing_new_lines("\n\nA\nB\n\n".to_string()), "A\nB");
    assert_eq!(drop_enclosing_new_lines("\r\nx\r".to_string()), "x");
    assert_eq!(drop_enclosing_new_lines("plain".to_string()), "plain");
    assert_eq!(drop_enclosing_new_lines("".to_string()), "");
    assert_eq!(drop_enclosing_new_lines("\n\r\n".to_string()), "");
    assert_eq!(drop_enclosing_new_lines(" \nkept\n ".to_string()), " \nkept\n ");
}

#[test]
fn trim_twice_equals_trim_once() {
    let once = drop_enclosing_new_lines("\n\nA\nB\n\n".to_string());
    let twice = drop_enclosing_new_lines(once.clone());
    assert_eq!(twice, once);
    let once = drop_enclosing_new_lines("\r\r\n".to_string());
    let twice = drop_enclosing_new_lines(once.clone());
    assert_eq!(twice, once);
}

#[test]
fn caseless_comparison_ignores_ascii_case_only() {
    assert!(eq_ignore_ascii_case("Info", "INFO"));
    assert!(eq_ignore_ascii_case("off", "off"));
    assert!(!eq_ignore_ascii_case("warn", "warne"));
    assert!(!eq_ignore_ascii_case("warn", "wurn"));
    assert!(eq_ignore_ascii_case("", ""));
}

#[test]
fn decimal_rendering_matches_expected() {
    assert_eq!(decimal_string(0), "0");
    assert_eq!(decimal_string(7), "7");
    assert_eq!(decimal_string(10), "10");
    assert_eq!(decimal_string(105), "105");
}

#[test]
fn parse_decimal_accepts_digit_runs_only() {
    assert_eq!(parse_decimal("0"), Some(0));
    assert_eq!(parse_decimal("123"), Some(123));
    assert_eq!(parse_decimal("007"), Some(7));
    assert_eq!(parse_decimal(""), None);
    assert_eq!(parse_decimal("12a"), None);
    assert_eq!(parse_decimal("-5"), None);
    assert_eq!(parse_decimal("99999999999999999999999"), None);
    assert_eq!(parse_decimal("18446744073709551615"), Some(u64::MAX));
}
