use slack_morphism::decimal::{i64_to_string, parse_i64, parse_u32, parse_u64, u64_to_string};

#[test]
fn decimal_texts() {
    assert_eq!(u64_to_string(0), "0");
    assert_eq!(u64_to_string(u64::MAX), "18446744073709551615");
    assert_eq!(i64_to_string(i64::MIN), "-9223372036854775808");
    assert_eq!(i64_to_string(42), "42");
}

#[test]
fn integers_parse_as_from_str_does() {
    for text in ["0", "+12", "-12", "007", "", "+", "-", "1 ", "9223372036854775807", "9223372036854775808",
        "-9223372036854775808", "-9223372036854775809", "٣"]
    {
        assert_eq!(parse_i64(text), text.parse::<i64>().ok(), "{text:?}");
        assert_eq!(parse_u64(text), text.parse::<u64>().ok(), "{text:?}");
        assert_eq!(parse_u32(text), text.parse::<u32>().ok(), "{text:?}");
    }
    assert_eq!(parse_u32("4294967295"), Some(u32::MAX));
    assert_eq!(parse_u32("4294967296"), None);
}
