use nebulous_data::text::{parse_usize, usize_to_decimal, str_eq, chars_of};
use nebulous_data::naming::{strip_multiplier, apply_double_suffix};

#[test]
fn parse_decimal() {
    assert_eq!(parse_usize("0"), Some(0));
    assert_eq!(parse_usize("42"), Some(42));
    assert_eq!(parse_usize("+7"), Some(7));
    assert_eq!(parse_usize("007"), Some(7));
    assert_eq!(parse_usize(""), None);
    assert_eq!(parse_usize("+"), None);
    assert_eq!(parse_usize("-1"), None);
    assert_eq!(parse_usize("4 2"), None);
    assert_eq!(parse_usize("18446744073709551615"), Some(usize::MAX));
    assert_eq!(parse_usize("18446744073709551616"), None);
    assert_eq!(parse_usize("184467440737095516150"), None);
}

#[test]
fn write_decimal() {
    assert_eq!(usize_to_decimal(0), "0");
    assert_eq!(usize_to_decimal(9), "9");
    assert_eq!(usize_to_decimal(10), "10");
    assert_eq!(usize_to_decimal(1234567), "1234567");
    assert_eq!(usize_to_decimal(usize::MAX), usize::MAX.to_string());
    for n in [0usize, 1, 99, 100, 65535, 123456789] {
        assert_eq!(parse_usize(&usize_to_decimal(n)), Some(n));
    }
}

#[test]
fn text_helpers() {
    assert!(str_eq("abc", "abc"));
    assert!(!str_eq("abc", "abd"));
    assert_eq!(chars_of("héllo"), vec!['h', 'é', 'l', 'l', 'o']);
    assert_eq!(strip_multiplier("héllo (2)"), Some(("héllo".to_string(), 2)));
}

#[test]
fn multiplier_names() {
    assert_eq!(strip_multiplier("Fleet (2x)"), Some(("Fleet".to_string(), 2)));
    assert_eq!(strip_multiplier("Fleet ( x3 X )  "), Some(("Fleet".to_string(), 3)));
    assert_eq!(strip_multiplier("My (old) Fleet (12)"), Some(("My (old) Fleet".to_string(), 12)));
    assert_eq!(strip_multiplier("Fleet"), None);
    assert_eq!(strip_multiplier("Fleet (2x"), None);
    assert_eq!(strip_multiplier("Fleet (two)"), None);
    assert_eq!(apply_double_suffix("Fleet"), "Fleet (2x)");
    assert_eq!(apply_double_suffix("Fleet (2x)"), "Fleet (4x)");
    assert_eq!(apply_double_suffix("Fleet (3x) "), "Fleet (6x)");
    assert_eq!(apply_double_suffix("(5)"), " (10x)");
}
