use licc::numbers::{parse_i32, parse_json_key_i32};

#[test]
fn test_parse_i32_plain() {
    assert_eq!(parse_i32("12"), Some(12));
    assert_eq!(parse_i32("0"), Some(0));
    assert_eq!(parse_i32("007"), Some(7));
}

#[test]
fn test_parse_i32_signed() {
    assert_eq!(parse_i32("+5"), Some(5));
    assert_eq!(parse_i32("-5"), Some(-5));
    assert_eq!(parse_i32("-0"), Some(0));
}

#[test]
fn test_parse_i32_bounds() {
    assert_eq!(parse_i32("2147483647"), Some(2147483647));
    assert_eq!(parse_i32("-2147483648"), Some(-2147483648));
    assert_eq!(parse_i32("2147483648"), None);
    assert_eq!(parse_i32("-2147483649"), None);
    assert_eq!(parse_i32("99999999999999999999"), None);
}

#[test]
fn test_parse_i32_rejects_junk() {
    assert_eq!(parse_i32(""), None);
    assert_eq!(parse_i32("+"), None);
    assert_eq!(parse_i32("-"), None);
    assert_eq!(parse_i32("12a"), None);
    assert_eq!(parse_i32(" 12"), None);
    assert_eq!(parse_i32("1 2"), None);
    assert_eq!(parse_i32("1.0"), None);
}

#[test]
fn test_parse_json_key() {
    assert_eq!(parse_json_key_i32("0"), Some(0));
    assert_eq!(parse_json_key_i32("12"), Some(12));
    assert_eq!(parse_json_key_i32("-12"), Some(-12));
    assert_eq!(parse_json_key_i32("-0"), Some(0));
    assert_eq!(parse_json_key_i32("2147483647"), Some(2147483647));
    assert_eq!(parse_json_key_i32("-2147483648"), Some(-2147483648));
}

#[test]
fn test_parse_json_key_rejects_non_canonical_spellings() {
    assert_eq!(parse_json_key_i32("+1"), None);
    assert_eq!(parse_json_key_i32("01"), None);
    assert_eq!(parse_json_key_i32("-01"), None);
    assert_eq!(parse_json_key_i32(""), None);
    assert_eq!(parse_json_key_i32("1e2"), None);
    assert_eq!(parse_json_key_i32("2147483648"), None);
}
