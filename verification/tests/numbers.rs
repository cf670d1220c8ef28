use command_bot::text::{clone_texts, parse_int, push_decimal, render_int};

#[test]
fn render_int_writes_decimal() {
    assert_eq!(render_int(0), "0");
    assert_eq!(render_int(7), "7");
    assert_eq!(render_int(10), "10");
    assert_eq!(render_int(12), "12");
    assert_eq!(render_int(-1), "-1");
    assert_eq!(render_int(-120), "-120");
    assert_eq!(render_int(1234567890123456789), "1234567890123456789");
}

#[test]
fn render_int_at_the_limits() {
    assert_eq!(render_int(i128::MAX), i128::MAX.to_string());
    assert_eq!(render_int(i128::MIN), i128::MIN.to_string());
    assert_eq!(render_int(i64::MIN as i128), "-9223372036854775808");
}

#[test]
fn push_decimal_appends() {
    let mut s = String::from("n=");
    push_decimal(&mut s, 0);
    push_decimal(&mut s, 905);
    assert_eq!(s, "n=0905");
    let mut t = String::new();
    push_decimal(&mut t, u128::MAX);
    assert_eq!(t, u128::MAX.to_string());
}

#[test]
fn parse_int_reads_literals() {
    assert_eq!(parse_int("0"), Some(0));
    assert_eq!(parse_int("3"), Some(3));
    assert_eq!(parse_int("42"), Some(42));
    assert_eq!(parse_int("-17"), Some(-17));
    assert_eq!(parse_int("+17"), Some(17));
    assert_eq!(parse_int("007"), Some(7));
    assert_eq!(parse_int("-0"), Some(0));
}

#[test]
fn parse_int_refuses_what_is_no_literal() {
    assert_eq!(parse_int(""), None);
    assert_eq!(parse_int("-"), None);
    assert_eq!(parse_int("+"), None);
    assert_eq!(parse_int("foo"), None);
    assert_eq!(parse_int("12a"), None);
    assert_eq!(parse_int("a12"), None);
    assert_eq!(parse_int("1.5"), None);
    assert_eq!(parse_int("1 2"), None);
    assert_eq!(parse_int("--1"), None);
    assert_eq!(parse_int("+-1"), None);
    assert_eq!(parse_int("١٢"), None);
}

#[test]
fn parse_int_at_the_limits() {
    assert_eq!(parse_int("9223372036854775807"), Some(i64::MAX));
    assert_eq!(parse_int("9223372036854775808"), None);
    assert_eq!(parse_int("-9223372036854775808"), Some(i64::MIN));
    assert_eq!(parse_int("-9223372036854775809"), None);
    assert_eq!(parse_int("99999999999999999999999999999999999999999999"), None);
    assert_eq!(parse_int("00000000000000000000000000000000000000000001"), Some(1));
}

#[test]
fn parse_int_agrees_with_std() {
    let samples = ["5", "-5", "+5", "", "x", "18446744073709551615", "-000", "3e2", " 3", "3 "];
    for sample in samples {
        assert_eq!(parse_int(sample), sample.parse::<i64>().ok(), "sample {:?}", sample);
    }
}

#[test]
fn parse_int_reads_back_what_render_int_wrote() {
    for v in [0i64, 1, -1, 9, 10, -10, 12345, i64::MAX, i64::MIN] {
        assert_eq!(parse_int(&render_int(v as i128)), Some(v));
    }
}

#[test]
fn clone_texts_copies() {
    let v = vec!["a".to_string(), "".to_string(), "bc".to_string()];
    assert_eq!(clone_texts(&v), v);
    assert_eq!(clone_texts(&Vec::new()), Vec::<String>::new());
}
