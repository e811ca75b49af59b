use hr::present::link_html;
use hr::validate::{eq_ignore_ascii_case, parse_course, parse_i64, parse_nonempty, CourseValue};

#[test]
fn inline_link_markup() {
    assert_eq!(link_html("welcome", "https://example.org/join"), "<a href=\"https://example.org/join\">welcome</a>");
    assert_eq!(link_html("", ""), "<a href=\"\"></a>");
}

#[test]
fn course_senior_literal() {
    assert_eq!(parse_course("6+"), Some(CourseValue::Senior));
}

#[test]
fn course_senior_integers_collapse_with_literal() {
    assert_eq!(parse_course("5"), Some(CourseValue::Senior));
    assert_eq!(parse_course("100"), Some(CourseValue::Senior));
    assert_eq!(parse_course("6+"), parse_course("5"));
    assert_eq!(parse_course("5"), parse_course("100"));
    assert_eq!(parse_course("7"), Some(CourseValue::Senior));
}

#[test]
fn course_junior_range() {
    assert_eq!(parse_course("1"), Some(CourseValue::Junior(1)));
    assert_eq!(parse_course("3"), Some(CourseValue::Junior(3)));
    assert_eq!(parse_course("4"), Some(CourseValue::Junior(4)));
    assert_eq!(parse_course("+2"), Some(CourseValue::Junior(2)));
}

#[test]
fn course_rejected() {
    assert_eq!(parse_course("0"), None);
    assert_eq!(parse_course("-1"), None);
    assert_eq!(parse_course("abc"), None);
    assert_eq!(parse_course(""), None);
    assert_eq!(parse_course("+"), None);
    assert_eq!(parse_course("3a"), None);
    assert_eq!(parse_course(" 3"), None);
}

#[test]
fn course_byte_bound() {
    assert_eq!(parse_course("255"), Some(CourseValue::Senior));
    assert_eq!(parse_course("256"), None);
    assert_eq!(parse_course("1000"), None);
}

#[test]
fn course_leading_zeros() {
    assert_eq!(parse_course("007"), Some(CourseValue::Senior));
    assert_eq!(parse_course("004"), Some(CourseValue::Junior(4)));
}

#[test]
fn nonempty_passes_payload_through() {
    assert_eq!(parse_nonempty(Some(String::new())), Some(String::new()));
    assert_eq!(parse_nonempty(Some("hi".to_owned())), Some("hi".to_owned()));
    assert_eq!(parse_nonempty(None), None);
}

#[test]
fn integer_parsing() {
    assert_eq!(parse_i64("123"), Some(123));
    assert_eq!(parse_i64("-5"), Some(-5));
    assert_eq!(parse_i64("+7"), Some(7));
    assert_eq!(parse_i64("0"), Some(0));
    assert_eq!(parse_i64("9223372036854775807"), Some(i64::MAX));
    assert_eq!(parse_i64("-9223372036854775808"), Some(i64::MIN));
    assert_eq!(parse_i64("9223372036854775808"), None);
    assert_eq!(parse_i64("-9223372036854775809"), None);
    assert_eq!(parse_i64(""), None);
    assert_eq!(parse_i64("-"), None);
    assert_eq!(parse_i64("12x"), None);
}

#[test]
fn case_insensitive_comparison() {
    assert!(eq_ignore_ascii_case("SEND", "send"));
    assert!(eq_ignore_ascii_case("SeNd", "send"));
    assert!(eq_ignore_ascii_case("cancel", "CANCEL"));
    assert!(!eq_ignore_ascii_case("sent", "send"));
    assert!(!eq_ignore_ascii_case("send ", "send"));
    assert!(!eq_ignore_ascii_case("", "send"));
}
