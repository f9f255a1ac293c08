use rs_backend::segment::parse_id;

#[test]
fn plain_numbers_name_an_id() {
    assert_eq!(parse_id("0"), Some(0));
    assert_eq!(parse_id("1"), Some(1));
    assert_eq!(parse_id("42"), Some(42));
    assert_eq!(parse_id("007"), Some(7));
}

#[test]
fn a_sign_may_come_first() {
    assert_eq!(parse_id("+5"), Some(5));
    assert_eq!(parse_id("-5"), Some(-5));
    assert_eq!(parse_id("-0"), Some(0));
    assert_eq!(parse_id("+0"), Some(0));
}

#[test]
fn the_bounds_of_the_range_name_an_id() {
    assert_eq!(parse_id("9223372036854775807"), Some(i64::MAX));
    assert_eq!(parse_id("-9223372036854775808"), Some(i64::MIN));
    assert_eq!(parse_id("+9223372036854775807"), Some(i64::MAX));
    assert_eq!(parse_id("00000000000000000000009223372036854775807"), Some(i64::MAX));
}

#[test]
fn numbers_out_of_range_name_no_id() {
    assert_eq!(parse_id("9223372036854775808"), None);
    assert_eq!(parse_id("-9223372036854775809"), None);
    assert_eq!(parse_id("99999999999999999999999999999999"), None);
    assert_eq!(parse_id("-99999999999999999999999999999999"), None);
}

#[test]
fn other_text_names_no_id() {
    assert_eq!(parse_id("abc"), None);
    assert_eq!(parse_id(""), None);
    assert_eq!(parse_id("+"), None);
    assert_eq!(parse_id("-"), None);
    assert_eq!(parse_id("--1"), None);
    assert_eq!(parse_id("+-1"), None);
    assert_eq!(parse_id("1-"), None);
    assert_eq!(parse_id(" 1"), None);
    assert_eq!(parse_id("1 "), None);
    assert_eq!(parse_id("1.0"), None);
    assert_eq!(parse_id("1e3"), None);
    assert_eq!(parse_id("0x10"), None);
    assert_eq!(parse_id("1_000"), None);
    assert_eq!(parse_id("12a"), None);
    assert_eq!(parse_id("١٢٣"), None);
    assert_eq!(parse_id("1é"), None);
    assert_eq!(parse_id("99999999999999999999x"), None);
}

#[test]
fn agrees_with_the_standard_parser() {
    let samples = [
        "", "0", "1", "-1", "+1", "+", "-", "abc", "12", "-12", "+12", "1a", "a1", " 1", "1 ",
        "9223372036854775807", "9223372036854775808", "-9223372036854775808",
        "-9223372036854775809", "18446744073709551616", "000", "-000", "+-0", "٣", "1\u{0}",
        "/", ":", "0/", "0:", "92233720368547758070", "-92233720368547758080",
    ];
    for sample in samples {
        assert_eq!(parse_id(sample), sample.parse::<i64>().ok(), "segment {:?}", sample);
    }
}
