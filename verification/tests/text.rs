use makita::text::{
    chars_are, chars_eq, chars_of, parse_bool, parse_digits, parse_i32, parse_u16, parse_u64,
    push_decimal, push_str, rfind, slice_of, split_on, str_eq,
};

fn chars(s: &str) -> Vec<char> {
    s.chars().collect()
}

#[test]
fn chars_of_gives_the_characters() {
    assert_eq!(chars_of("a-b"), vec!['a', '-', 'b']);
    assert_eq!(chars_of(""), Vec::<char>::new());
    assert_eq!(chars_of("é€"), vec!['é', '€']);
}

#[test]
fn text_comparisons() {
    assert!(chars_are(&chars("bind"), "bind"));
    assert!(!chars_are(&chars("bind"), "bin"));
    assert!(!chars_are(&chars("bind"), "bond"));
    assert!(chars_eq(&chars("x"), &chars("x")));
    assert!(!chars_eq(&chars("x"), &chars("y")));
    assert!(str_eq("GRAB_DEVICE", "GRAB_DEVICE"));
    assert!(!str_eq("GRAB_DEVICE", "GRAB_DEVICES"));
}

#[test]
fn rfind_gives_the_last_occurrence() {
    assert_eq!(rfind(&chars("a-b-c"), '-'), Some(3));
    assert_eq!(rfind(&chars("-abc"), '-'), Some(0));
    assert_eq!(rfind(&chars("abc"), '-'), None);
    assert_eq!(rfind(&chars(""), '-'), None);
}

#[test]
fn split_on_gives_every_piece() {
    assert_eq!(split_on(&chars("a-b"), '-'), vec![chars("a"), chars("b")]);
    assert_eq!(split_on(&chars(""), '-'), vec![chars("")]);
    assert_eq!(split_on(&chars("-a"), '-'), vec![chars(""), chars("a")]);
    assert_eq!(split_on(&chars("a--b-"), '-'), vec![chars("a"), chars(""), chars("b"), chars("")]);
    assert_eq!(split_on(&chars("abc"), '-'), vec![chars("abc")]);
}

#[test]
fn split_on_agrees_with_std() {
    for s in ["", "-", "a", "a-b-c", "--", "KEY_A-KEY_B-", "-x-"] {
        let expected: Vec<Vec<char>> = s.split('-').map(|p| p.chars().collect()).collect();
        assert_eq!(split_on(&chars(s), '-'), expected);
    }
}

#[test]
fn slice_of_gives_the_range() {
    assert_eq!(slice_of(&chars("abcdef"), 1, 4), chars("bcd"));
    assert_eq!(slice_of(&chars("abc"), 3, 3), chars(""));
    assert_eq!(slice_of(&chars("abc"), 0, 3), chars("abc"));
}

#[test]
fn parse_i32_reads_decimal_literals() {
    assert_eq!(parse_i32(&chars("0")), Some(0));
    assert_eq!(parse_i32(&chars("5")), Some(5));
    assert_eq!(parse_i32(&chars("+5")), Some(5));
    assert_eq!(parse_i32(&chars("-5")), Some(-5));
    assert_eq!(parse_i32(&chars("-0")), Some(0));
    assert_eq!(parse_i32(&chars("007")), Some(7));
    assert_eq!(parse_i32(&chars("2147483647")), Some(i32::MAX));
    assert_eq!(parse_i32(&chars("-2147483648")), Some(i32::MIN));
}

#[test]
fn parse_i32_rejects_what_is_no_i32() {
    assert_eq!(parse_i32(&chars("")), None);
    assert_eq!(parse_i32(&chars("-")), None);
    assert_eq!(parse_i32(&chars("+")), None);
    assert_eq!(parse_i32(&chars("2147483648")), None);
    assert_eq!(parse_i32(&chars("-2147483649")), None);
    assert_eq!(parse_i32(&chars("99999999999999999999999999")), None);
    assert_eq!(parse_i32(&chars(" 5")), None);
    assert_eq!(parse_i32(&chars("5 ")), None);
    assert_eq!(parse_i32(&chars("1_000")), None);
    assert_eq!(parse_i32(&chars("--5")), None);
    assert_eq!(parse_i32(&chars("+-5")), None);
    assert_eq!(parse_i32(&chars("0x10")), None);
    assert_eq!(parse_i32(&chars("1.5")), None);
    assert_eq!(parse_i32(&chars("٣")), None);
}

#[test]
fn parse_i32_agrees_with_std() {
    for s in [
        "", "0", "-0", "+0", "12", "-12", "+12", "2147483647", "2147483648", "-2147483648",
        "-2147483649", "00000000000000000000001", "abc", "1a", "a1", "-", "+", "++1", "1-",
    ] {
        assert_eq!(parse_i32(&chars(s)), s.parse::<i32>().ok(), "for {:?}", s);
    }
}

#[test]
fn parse_u64_reads_decimal_literals_without_minus() {
    assert_eq!(parse_u64(&chars("0")), Some(0));
    assert_eq!(parse_u64(&chars("+10")), Some(10));
    assert_eq!(parse_u64(&chars("18446744073709551615")), Some(u64::MAX));
    assert_eq!(parse_u64(&chars("18446744073709551616")), None);
    assert_eq!(parse_u64(&chars("-0")), None);
    assert_eq!(parse_u64(&chars("-1")), None);
    assert_eq!(parse_u64(&chars("")), None);
    assert_eq!(parse_u64(&chars("+")), None);
}

#[test]
fn parse_u64_agrees_with_std() {
    for s in [
        "", "0", "-0", "+0", "12", "-12", "18446744073709551615", "18446744073709551616",
        "000018446744073709551615", "1e3", "+", "-",
    ] {
        assert_eq!(parse_u64(&chars(s)), s.parse::<u64>().ok(), "for {:?}", s);
    }
}

#[test]
fn parse_u16_reads_layout_numbers() {
    assert_eq!(parse_u16(&chars("0")), Some(0));
    assert_eq!(parse_u16(&chars("3")), Some(3));
    assert_eq!(parse_u16(&chars("65535")), Some(65535));
    assert_eq!(parse_u16(&chars("65536")), None);
    assert_eq!(parse_u16(&chars("firefox")), None);
    assert_eq!(parse_u16(&chars("-1")), None);
}

#[test]
fn parse_digits_stops_at_the_limit() {
    assert_eq!(parse_digits(&chars("x123"), 1, 123), Some(123));
    assert_eq!(parse_digits(&chars("x123"), 1, 122), None);
    assert_eq!(parse_digits(&chars("x"), 1, 10), None);
    assert_eq!(parse_digits(&chars("12a"), 0, 1000), None);
}

#[test]
fn parse_bool_reads_true_and_false_only() {
    assert_eq!(parse_bool(&chars("true")), Some(true));
    assert_eq!(parse_bool(&chars("false")), Some(false));
    assert_eq!(parse_bool(&chars("True")), None);
    assert_eq!(parse_bool(&chars("1")), None);
    assert_eq!(parse_bool(&chars("")), None);
    assert_eq!(parse_bool(&chars("true ")), None);
}

#[test]
fn push_decimal_writes_the_digits() {
    let mut out = chars("n=");
    push_decimal(&mut out, 0);
    push_str(&mut out, ",");
    push_decimal(&mut out, 9);
    push_str(&mut out, ",");
    push_decimal(&mut out, 10);
    push_str(&mut out, ",");
    push_decimal(&mut out, 65535);
    push_str(&mut out, ",");
    push_decimal(&mut out, 1002);
    assert_eq!(out, chars("n=0,9,10,65535,1002"));
}
