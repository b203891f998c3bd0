use sss_code::error::CodeScreenshotError;
use sss_code::range::parse_range;

#[test]
fn digits_only_is_invalid_format() {
    for s in ["", "0", "7", "123", "00042", "18446744073709551616"] {
        let r = parse_range(s);
        assert!(matches!(
            r,
            Err(CodeScreenshotError::InvalidFormat("range", "start..end"))
        ));
    }
}

#[test]
fn default_expression_is_entire_content() {
    assert_eq!(parse_range("..").unwrap(), 0..usize::MAX);
}

#[test]
fn one_to_ten() {
    assert_eq!(parse_range("1..10").unwrap(), 0..11);
}

#[test]
fn five_to_end() {
    assert_eq!(parse_range("5..").unwrap(), 4..usize::MAX);
}

#[test]
fn start_to_five() {
    assert_eq!(parse_range("..5").unwrap(), 0..6);
}

#[test]
fn zero_to_zero() {
    assert_eq!(parse_range("0..0").unwrap(), 0..1);
}

#[test]
fn repeated_delimiter_is_stripped() {
    assert_eq!(parse_range("1,,10").unwrap(), 0..11);
    assert_eq!(parse_range("1xx10").unwrap(), 0..11);
}

#[test]
fn unparsable_right_part_runs_to_end() {
    assert_eq!(parse_range("3..x7").unwrap(), 2..usize::MAX);
}

#[test]
fn plus_sign_is_accepted_by_numeric_parse() {
    assert_eq!(parse_range("3..+7").unwrap(), 2..8);
}

#[test]
fn leading_delimiter_defaults_start_to_zero() {
    assert_eq!(parse_range(",5").unwrap(), 0..6);
}

#[test]
fn single_delimiter_character_alone() {
    assert_eq!(parse_range(".").unwrap(), 0..usize::MAX);
}

#[test]
fn out_of_order_range_is_not_rejected() {
    assert_eq!(parse_range("10..2").unwrap(), 9..3);
}

#[test]
fn overflowing_end_runs_to_end() {
    assert_eq!(parse_range("..18446744073709551616").unwrap(), 0..usize::MAX);
}

#[test]
fn largest_end_value_saturates() {
    assert_eq!(
        parse_range("..18446744073709551615").unwrap(),
        0..usize::MAX
    );
}

#[test]
fn largest_start_value() {
    assert_eq!(
        parse_range("18446744073709551615..").unwrap(),
        usize::MAX - 1..usize::MAX
    );
}

#[test]
fn non_ascii_delimiter() {
    assert_eq!(parse_range("1\u{2026}10").unwrap(), 0..11);
}
