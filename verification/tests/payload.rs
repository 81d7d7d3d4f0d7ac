use pico_range::payload::{format_u64_decimal, parse_u64_decimal};

#[test]
fn formats_zero() {
    assert_eq!(format_u64_decimal(0), b"0".to_vec());
}

#[test]
fn formats_plain_numbers() {
    assert_eq!(format_u64_decimal(7), b"7".to_vec());
    assert_eq!(format_u64_decimal(42), b"42".to_vec());
    assert_eq!(format_u64_decimal(12345), b"12345".to_vec());
    assert_eq!(format_u64_decimal(1000), b"1000".to_vec());
}

#[test]
fn formats_largest_value() {
    assert_eq!(format_u64_decimal(u64::MAX), b"18446744073709551615".to_vec());
}

#[test]
fn parses_plain_numbers() {
    assert_eq!(parse_u64_decimal(b"0"), Some(0));
    assert_eq!(parse_u64_decimal(b"120"), Some(120));
    assert_eq!(parse_u64_decimal(b"007"), Some(7));
    assert_eq!(parse_u64_decimal(b"18446744073709551615"), Some(u64::MAX));
}

#[test]
fn parses_leading_plus_sign() {
    assert_eq!(parse_u64_decimal(b"+42"), Some(42));
    assert_eq!(parse_u64_decimal(b"+0"), Some(0));
}

#[test]
fn rejects_malformed_input() {
    assert_eq!(parse_u64_decimal(b""), None);
    assert_eq!(parse_u64_decimal(b"+"), None);
    assert_eq!(parse_u64_decimal(b"-1"), None);
    assert_eq!(parse_u64_decimal(b"12a"), None);
    assert_eq!(parse_u64_decimal(b" 12"), None);
    assert_eq!(parse_u64_decimal(b"12 "), None);
    assert_eq!(parse_u64_decimal(b"1.5"), None);
    assert_eq!(parse_u64_decimal(b"++1"), None);
}

#[test]
fn rejects_out_of_range() {
    assert_eq!(parse_u64_decimal(b"18446744073709551616"), None);
    assert_eq!(parse_u64_decimal(b"99999999999999999999999"), None);
}

#[test]
fn round_trips_through_text() {
    for n in [0u64, 1, 9, 10, 99, 100, 4096, 123_456_789, u64::MAX - 1, u64::MAX] {
        let text = format_u64_decimal(n);
        assert_eq!(parse_u64_decimal(&text), Some(n));
    }
}

#[test]
fn agrees_with_std_parsing() {
    for text in ["0", "+1", "65536", "18446744073709551615"] {
        assert_eq!(parse_u64_decimal(text.as_bytes()), text.parse::<u64>().ok());
    }
    for text in ["", "+", "-3", "1e3", "18446744073709551616"] {
        assert!(text.parse::<u64>().is_err());
        assert_eq!(parse_u64_decimal(text.as_bytes()), None);
    }
}
