use interniverse::text::{chars_of, contains_chars, decimal_string, parse_i64};

#[test]
fn decimal_rendering() {
    assert_eq!(decimal_string(0), "0");
    assert_eq!(decimal_string(9), "9");
    assert_eq!(decimal_string(10), "10");
    assert_eq!(decimal_string(1234567890), "1234567890");
    assert_eq!(decimal_string(u128::MAX), u128::MAX.to_string());
}

#[test]
fn substring_search() {
    let hay = chars_of("héllo wörld");
    assert_eq!(hay.len(), 11);
    assert!(contains_chars(&hay, &chars_of("wö")));
    assert!(contains_chars(&hay, &chars_of("")));
    assert!(!contains_chars(&hay, &chars_of("wo")));
    assert!(!contains_chars(&chars_of(""), &chars_of("a")));
}

#[test]
fn signed_parsing() {
    assert_eq!(parse_i64(&chars_of("0")), Some(0));
    assert_eq!(parse_i64(&chars_of("-0")), Some(0));
    assert_eq!(parse_i64(&chars_of("007")), Some(7));
    assert_eq!(parse_i64(&chars_of("")), None);
    assert_eq!(parse_i64(&chars_of("-")), None);
    assert_eq!(parse_i64(&chars_of("+")), None);
    assert_eq!(parse_i64(&chars_of("1 ")), None);
    assert_eq!(parse_i64(&chars_of("--1")), None);
}
