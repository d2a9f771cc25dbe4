use simm_rs::compare::{lines_match_with_tolerance, parse_i64, split_fields};

fn chars(s: &str) -> Vec<char> {
    s.chars().collect()
}

#[test]
fn identical_lines_match() {
    assert!(lines_match_with_tolerance("a,b,3", "a,b,3"));
}

#[test]
fn large_numbers_may_differ_by_one() {
    assert!(lines_match_with_tolerance("x,1000000001", "x,1000000002"));
    assert!(lines_match_with_tolerance("x,-1500000000", "x,-1500000001"));
    assert!(!lines_match_with_tolerance("x,1000000001", "x,1000000003"));
}

#[test]
fn small_numbers_must_be_equal() {
    assert!(!lines_match_with_tolerance("x,999", "x,1000"));
    assert!(lines_match_with_tolerance("x,+5", "x,5"));
    assert!(lines_match_with_tolerance("x,007", "x,7"));
}

#[test]
fn field_counts_and_text_must_agree() {
    assert!(!lines_match_with_tolerance("a,b", "a,b,"));
    assert!(!lines_match_with_tolerance("a,1.5", "a,1.6"));
    assert!(lines_match_with_tolerance("", ""));
}

#[test]
fn split_keeps_empty_fields() {
    assert_eq!(split_fields("a,,b,", ','), vec![chars("a"), vec![], chars("b"), vec![]]);
    assert_eq!(split_fields("", ','), vec![Vec::<char>::new()]);
}

#[test]
fn parse_i64_like_std() {
    assert_eq!(parse_i64(&chars("-42")), Some(-42));
    assert_eq!(parse_i64(&chars("+42")), Some(42));
    assert_eq!(parse_i64(&chars("-")), None);
    assert_eq!(parse_i64(&chars("9223372036854775807")), Some(i64::MAX));
    assert_eq!(parse_i64(&chars("-9223372036854775808")), Some(i64::MIN));
    assert_eq!(parse_i64(&chars("9223372036854775808")), None);
    assert_eq!(parse_i64(&chars("1e3")), None);
}
