use c_const::decimal::{isize_to_string, parse_isize, u64_to_string, usize_to_string};

#[test]
fn parse_plain_digits() {
    assert_eq!(parse_isize("42"), Some(42));
    assert_eq!(parse_isize("0"), Some(0));
    assert_eq!(parse_isize("9"), Some(9));
}

#[test]
fn parse_signs() {
    assert_eq!(parse_isize("-42"), Some(-42));
    assert_eq!(parse_isize("+42"), Some(42));
    assert_eq!(parse_isize("-0"), Some(0));
    assert_eq!(parse_isize("+0"), Some(0));
}

#[test]
fn parse_leading_zeros() {
    assert_eq!(parse_isize("007"), Some(7));
    assert_eq!(parse_isize("-0012"), Some(-12));
}

#[test]
fn parse_rejects_empty_and_lone_sign() {
    assert_eq!(parse_isize(""), None);
    assert_eq!(parse_isize("+"), None);
    assert_eq!(parse_isize("-"), None);
}

#[test]
fn parse_rejects_what_is_no_digit() {
    assert_eq!(parse_isize("abc"), None);
    assert_eq!(parse_isize(" 5"), None);
    assert_eq!(parse_isize("5 "), None);
    assert_eq!(parse_isize("1_000"), None);
    assert_eq!(parse_isize("0x10"), None);
    assert_eq!(parse_isize("--5"), None);
    assert_eq!(parse_isize("+-5"), None);
    assert_eq!(parse_isize("5-"), None);
    assert_eq!(parse_isize("1.0"), None);
    assert_eq!(parse_isize("12a"), None);
}

#[test]
fn parse_rejects_digits_outside_ascii() {
    assert_eq!(parse_isize("\u{0663}"), None);
    assert_eq!(parse_isize("1\u{00e9}"), None);
    assert_eq!(parse_isize("\u{ff11}\u{ff12}"), None);
}

#[test]
fn parse_bounds_of_isize() {
    let max = format!("{}", isize::MAX);
    let min = format!("{}", isize::MIN);
    assert_eq!(parse_isize(&max), Some(isize::MAX));
    assert_eq!(parse_isize(&min), Some(isize::MIN));
}

#[test]
fn parse_rejects_overflow() {
    let above = format!("{}", isize::MAX as i128 + 1);
    let below = format!("{}", isize::MIN as i128 - 1);
    assert_eq!(parse_isize(&above), None);
    assert_eq!(parse_isize(&below), None);
    assert_eq!(parse_isize("99999999999999999999999999999999999999999"), None);
    assert_eq!(parse_isize("-99999999999999999999999999999999999999999"), None);
}

#[test]
fn parse_agrees_with_std() {
    let samples = [
        "0", "1", "-1", "+1", "10", "-10", "123456789", "", "+", "-", "a", "1a", "a1", " 1", "1 ",
        "00", "-00", "+00", "2147483647", "2147483648", "-2147483648", "-2147483649",
        "9223372036854775807", "9223372036854775808", "-9223372036854775808",
        "-9223372036854775809", "18446744073709551616", "++1", "1+", "1-1",
    ];
    for s in samples {
        assert_eq!(parse_isize(s), s.parse::<isize>().ok(), "input {:?}", s);
    }
}

#[test]
fn text_of_small_numbers() {
    assert_eq!(isize_to_string(0), "0");
    assert_eq!(isize_to_string(7), "7");
    assert_eq!(isize_to_string(42), "42");
    assert_eq!(isize_to_string(-1), "-1");
    assert_eq!(isize_to_string(-105), "-105");
    assert_eq!(isize_to_string(1000), "1000");
}

#[test]
fn text_of_bounds() {
    assert_eq!(isize_to_string(isize::MAX), format!("{}", isize::MAX));
    assert_eq!(isize_to_string(isize::MIN), format!("{}", isize::MIN));
    assert_eq!(usize_to_string(usize::MAX), format!("{}", usize::MAX));
    assert_eq!(u64_to_string(u64::MAX), "18446744073709551615");
    assert_eq!(u64_to_string(0), "0");
}

#[test]
fn text_of_unsigned() {
    assert_eq!(usize_to_string(26), "26");
    assert_eq!(usize_to_string(0), "0");
    assert_eq!(usize_to_string(100), "100");
}

#[test]
fn text_parses_back() {
    let values = [0isize, 1, -1, 9, 10, -10, 99, 100, 12345, -98765, isize::MAX, isize::MIN];
    for v in values {
        assert_eq!(parse_isize(&isize_to_string(v)), Some(v));
    }
}

#[test]
fn text_agrees_with_std() {
    let values = [0isize, 5, -5, 10, 19, 20, 101, -1000, 65536, -65537, isize::MAX, isize::MIN];
    for v in values {
        assert_eq!(isize_to_string(v), format!("{}", v));
    }
}
