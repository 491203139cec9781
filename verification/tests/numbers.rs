use track_overlay::numbers::parse_decimal;
use track_overlay::text::str_contains;

#[test]
fn whole_numbers_are_scaled_by_the_places() {
    assert_eq!(parse_decimal("0", 0), Some(0));
    assert_eq!(parse_decimal("145", 0), Some(145));
    assert_eq!(parse_decimal("145", 3), Some(145_000));
    assert_eq!(parse_decimal("007", 2), Some(700));
    assert_eq!(parse_decimal("1", 9), Some(1_000_000_000));
}

#[test]
fn fractions_are_kept_up_to_the_places() {
    assert_eq!(parse_decimal("4.2", 3), Some(4_200));
    assert_eq!(parse_decimal("4.20", 3), Some(4_200));
    assert_eq!(parse_decimal("230.5", 3), Some(230_500));
    assert_eq!(parse_decimal("-10.123456", 7), Some(-101_234_560));
    assert_eq!(parse_decimal("-48.654321", 7), Some(-486_543_210));
    assert_eq!(parse_decimal("60.500000", 3), Some(60_500));
}

#[test]
fn further_places_are_cut_off() {
    assert_eq!(parse_decimal("1.9999", 3), Some(1_999));
    assert_eq!(parse_decimal("-1.9999", 3), Some(-1_999));
    assert_eq!(parse_decimal("0.9", 0), Some(0));
    assert_eq!(parse_decimal("12.345678901234567890123", 9), Some(12_345_678_901));
}

#[test]
fn sign_and_bare_point_forms_are_read() {
    assert_eq!(parse_decimal("+5", 1), Some(50));
    assert_eq!(parse_decimal("-5", 1), Some(-50));
    assert_eq!(parse_decimal("5.", 1), Some(50));
    assert_eq!(parse_decimal(".5", 1), Some(5));
    assert_eq!(parse_decimal("-.5", 2), Some(-50));
    assert_eq!(parse_decimal("-0", 2), Some(0));
}

#[test]
fn what_is_no_plain_decimal_is_refused() {
    for text in ["", "-", "+", ".", "-.", "1e3", "1,5", " 1", "1 ", "1.2.3", "--1", "+-1", "abc", "1a", "٣", "inf", "NaN", "0x10"] {
        assert_eq!(parse_decimal(text, 3), None, "{:?}", text);
    }
}

#[test]
fn numbers_beyond_the_limit_are_refused() {
    assert_eq!(parse_decimal("1000000000000000000", 0), Some(1_000_000_000_000_000_000));
    assert_eq!(parse_decimal("-1000000000000000000", 0), Some(-1_000_000_000_000_000_000));
    assert_eq!(parse_decimal("1000000000000000001", 0), None);
    assert_eq!(parse_decimal("-1000000000000000001", 0), None);
    assert_eq!(parse_decimal("1000000000000000", 3), Some(1_000_000_000_000_000_000));
    assert_eq!(parse_decimal("1000000000000000.001", 3), None);
    assert_eq!(parse_decimal("99999999999999999999999999999999999999999999", 0), None);
    assert_eq!(parse_decimal("340282366920938463463374607431768211456", 9), None);
}

#[test]
fn part_of_a_text_is_found() {
    assert!(str_contains("ffprobe: not found", "not found"));
    assert!(str_contains("not found", "not found"));
    assert!(str_contains("abc", ""));
    assert!(str_contains("", ""));
    assert!(str_contains("aab", "ab"));
    assert!(str_contains("vídeo não", "não"));
    assert!(!str_contains("not foun", "not found"));
    assert!(!str_contains("", "a"));
    assert!(!str_contains("abc", "abcd"));
    assert!(!str_contains("Not Found", "not found"));
}
