use echoinput::text::{decimal_string, parse_at_most_u64, text_eq};

#[test]
fn parse_unsigned_numbers() {
    assert_eq!(parse_at_most_u64("0", 10), Some(0));
    assert_eq!(parse_at_most_u64("+10", 10), Some(10));
    assert_eq!(parse_at_most_u64("11", 10), None);
    assert_eq!(parse_at_most_u64("", 10), None);
    assert_eq!(parse_at_most_u64("+", 10), None);
    assert_eq!(parse_at_most_u64("-0", 10), None);
    assert_eq!(parse_at_most_u64("1x", 10), None);
    assert_eq!(parse_at_most_u64("18446744073709551615", u64::MAX), Some(u64::MAX));
    assert_eq!(parse_at_most_u64("18446744073709551616", u64::MAX), None);
    assert_eq!(parse_at_most_u64("99999999999999999999x", u64::MAX), None);
}

#[test]
fn parse_agrees_with_std() {
    for s in ["0", "42", "+42", "4294967295", "4294967296", "", "-", "+", "1_0", "٣"] {
        assert_eq!(parse_at_most_u64(s, u32::MAX as u64), s.parse::<u32>().ok().map(u64::from), "{s:?}");
    }
}

#[test]
fn decimal_notation() {
    assert_eq!(decimal_string(0), "0");
    assert_eq!(decimal_string(7), "7");
    assert_eq!(decimal_string(40), "40");
    assert_eq!(decimal_string(u64::MAX), u64::MAX.to_string());
}

#[test]
fn decimal_parses_back() {
    for n in [0u64, 9, 10, 12345, u64::MAX] {
        assert_eq!(parse_at_most_u64(&decimal_string(n), u64::MAX), Some(n));
    }
}

#[test]
fn text_equality() {
    assert!(text_eq("quit", "quit"));
    assert!(!text_eq("quit", "quits"));
    assert!(!text_eq("quit", "Quit"));
    assert!(text_eq("", ""));
}
