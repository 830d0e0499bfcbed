use cider_rpc::parse::check_decimal;
use cider_rpc::parse::parse_i8;
use cider_rpc::parse::parse_u32;
use cider_rpc::parse::parse_u64;
use cider_rpc::parse::split_char;
use cider_rpc::text::chars_of;
use cider_rpc::text::string_of;
use cider_rpc::text::strings_of;

fn chars(s: &str) -> Vec<char> {
    chars_of(s)
}

#[test]
fn u64_parsing_follows_from_str() {
    assert_eq!(parse_u64(&chars("0")), Some(0));
    assert_eq!(parse_u64(&chars("007")), Some(7));
    assert_eq!(parse_u64(&chars("+1")), Some(1));
    assert_eq!(parse_u64(&chars("18446744073709551615")), Some(u64::MAX));
    assert_eq!(parse_u64(&chars("18446744073709551616")), None);
    assert_eq!(parse_u64(&chars("")), None);
    assert_eq!(parse_u64(&chars("+")), None);
    assert_eq!(parse_u64(&chars("1a")), None);
    assert_eq!(parse_u64(&chars("-1")), None);
    assert_eq!(parse_u64(&chars(" 1")), None);
}

#[test]
fn u32_parsing_respects_the_range() {
    assert_eq!(parse_u32(&chars("4294967295")), Some(u32::MAX));
    assert_eq!(parse_u32(&chars("4294967296")), None);
    assert_eq!(parse_u32(&chars("42")), Some(42));
}

#[test]
fn i8_parsing_respects_sign_and_range() {
    assert_eq!(parse_i8(&chars("127")), Some(127));
    assert_eq!(parse_i8(&chars("+127")), Some(127));
    assert_eq!(parse_i8(&chars("128")), None);
    assert_eq!(parse_i8(&chars("-128")), Some(-128));
    assert_eq!(parse_i8(&chars("-129")), None);
    assert_eq!(parse_i8(&chars("-0")), Some(0));
    assert_eq!(parse_i8(&chars("-")), None);
    assert_eq!(parse_i8(&chars("--1")), None);
}

#[test]
fn the_decimal_grammar_wants_one_point_at_most() {
    assert!(check_decimal(&chars("0")));
    assert!(check_decimal(&chars("0.5")));
    assert!(check_decimal(&chars(".5")));
    assert!(check_decimal(&chars("5.")));
    assert!(check_decimal(&chars("-12.75")));
    assert!(check_decimal(&chars("+3")));
    assert!(!check_decimal(&chars("")));
    assert!(!check_decimal(&chars(".")));
    assert!(!check_decimal(&chars("-")));
    assert!(!check_decimal(&chars("1.2.3")));
    assert!(!check_decimal(&chars("1e3")));
    assert!(!check_decimal(&chars("abc")));
}

#[test]
fn splitting_keeps_empty_pieces() {
    let parts = strings_of(&split_char(&chars("a,,b"), ','));
    assert_eq!(parts, vec!["a".to_string(), "".to_string(), "b".to_string()]);
    let parts = strings_of(&split_char(&chars(""), ','));
    assert_eq!(parts, vec!["".to_string()]);
    let parts = strings_of(&split_char(&chars(",x,"), ','));
    assert_eq!(parts, vec!["".to_string(), "x".to_string(), "".to_string()]);
}

#[test]
fn strings_survive_the_char_round_trip() {
    assert_eq!(string_of(&chars("naïve ✓")), "naïve ✓");
    assert_eq!(string_of(&chars("")), "");
}
