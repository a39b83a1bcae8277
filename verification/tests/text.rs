use vivatech_planner::text::{append_decimal, parse_u32, parse_u64, same_text};

fn decimal(n: u64) -> String {
    let mut out = String::new();
    append_decimal(&mut out, n);
    out
}

#[test]
fn plain_numbers_parse() {
    assert_eq!(parse_u32("0"), Some(0));
    assert_eq!(parse_u32("7"), Some(7));
    assert_eq!(parse_u32("12"), Some(12));
    assert_eq!(parse_u32("31"), Some(31));
    assert_eq!(parse_u64("30"), Some(30));
    assert_eq!(parse_u64("1234567890123"), Some(1_234_567_890_123));
}

#[test]
fn leading_zeros_and_plus_are_accepted() {
    assert_eq!(parse_u32("007"), Some(7));
    assert_eq!(parse_u32("+12"), Some(12));
    assert_eq!(parse_u64("+0"), Some(0));
    assert_eq!(parse_u64("000000000000000000000000000042"), Some(42));
}

#[test]
fn text_that_is_no_number_is_refused() {
    assert_eq!(parse_u32(""), None);
    assert_eq!(parse_u32("+"), None);
    assert_eq!(parse_u32("-"), None);
    assert_eq!(parse_u32("-1"), None);
    assert_eq!(parse_u32("-0"), None);
    assert_eq!(parse_u32("++1"), None);
    assert_eq!(parse_u32("1+"), None);
    assert_eq!(parse_u32("12a"), None);
    assert_eq!(parse_u32("a12"), None);
    assert_eq!(parse_u32(" 12"), None);
    assert_eq!(parse_u32("12 "), None);
    assert_eq!(parse_u32("1 2"), None);
    assert_eq!(parse_u32("1.5"), None);
    assert_eq!(parse_u64("0x10"), None);
}

#[test]
fn digits_outside_ascii_are_refused() {
    assert_eq!(parse_u32("\u{661}\u{662}"), None);
    assert_eq!(parse_u32("1\u{662}"), None);
    assert_eq!(parse_u32("+\u{661}"), None);
    assert_eq!(parse_u64("\u{ff11}"), None);
    assert_eq!(parse_u64("12\u{e9}"), None);
}

#[test]
fn numbers_stop_at_the_width() {
    assert_eq!(parse_u32("4294967295"), Some(u32::MAX));
    assert_eq!(parse_u32("4294967296"), None);
    assert_eq!(parse_u32("99999999999"), None);
    assert_eq!(parse_u64("18446744073709551615"), Some(u64::MAX));
    assert_eq!(parse_u64("18446744073709551616"), None);
    assert_eq!(parse_u64("18446744073709551620"), None);
    assert_eq!(parse_u64("99999999999999999999"), None);
    assert_eq!(parse_u64("184467440737095516150"), None);
    assert_eq!(parse_u64("18446744073709551616x"), None);
}

#[test]
fn parsing_agrees_with_the_standard_library() {
    let samples = [
        "", "0", "1", "+1", "-1", "+", "12", "0012", "12x", "x", " 1", "4294967295", "4294967296",
        "18446744073709551615", "18446744073709551616", "+18446744073709551615", "1_000",
    ];
    for s in samples {
        assert_eq!(parse_u32(s), s.parse::<u32>().ok(), "u32 of {:?}", s);
        assert_eq!(parse_u64(s), s.parse::<u64>().ok(), "u64 of {:?}", s);
    }
}

#[test]
fn decimal_digits_of_small_numbers() {
    assert_eq!(decimal(0), "0");
    assert_eq!(decimal(7), "7");
    assert_eq!(decimal(9), "9");
    assert_eq!(decimal(10), "10");
    assert_eq!(decimal(197), "197");
    assert_eq!(decimal(1000), "1000");
    assert_eq!(decimal(1234567890), "1234567890");
}

#[test]
fn decimal_digits_of_the_largest_number() {
    assert_eq!(decimal(u64::MAX), "18446744073709551615");
}

#[test]
fn decimal_digits_are_appended() {
    let mut out = String::from("in ");
    append_decimal(&mut out, 42);
    assert_eq!(out, "in 42");
    append_decimal(&mut out, 0);
    assert_eq!(out, "in 420");
}

#[test]
fn decimal_digits_read_back() {
    for n in [0u64, 1, 9, 10, 99, 100, 255, 65535, 4294967295, 4294967296, u64::MAX] {
        assert_eq!(parse_u64(&decimal(n)), Some(n));
    }
}

#[test]
fn same_text_compares_characters() {
    assert!(same_text("june", "june"));
    assert!(same_text("", ""));
    assert!(!same_text("june", "June"));
    assert!(!same_text("june", "jun"));
    assert!(!same_text("june", "june "));
    assert!(same_text("d\u{e9}cembre", "d\u{e9}cembre"));
}
