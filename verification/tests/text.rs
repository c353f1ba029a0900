use bbs::text::eq_ignore_ascii_case;
use bbs::text::join_with;
use bbs::text::parse_id;
use bbs::text::tokenize;
use bbs::text::trim;
use bbs::text::u64_to_string;

#[test]
fn trim_removes_surrounding_whitespace() {
    assert_eq!(trim("  hi  "), "hi");
    assert_eq!(trim("hello\r\n"), "hello");
    assert_eq!(trim("\t a b \r\n"), "a b");
}

#[test]
fn trim_of_blank_input_is_empty() {
    assert_eq!(trim(""), "");
    assert_eq!(trim("   \r\n"), "");
}

#[test]
fn tokenize_splits_on_ascii_whitespace() {
    assert_eq!(tokenize("message read 0"), vec!["message", "read", "0"]);
    assert_eq!(tokenize("  a   b "), vec!["a", "b"]);
    assert_eq!(tokenize("one"), vec!["one"]);
}

#[test]
fn tokenize_of_blank_line_has_no_tokens() {
    assert!(tokenize("").is_empty());
    assert!(tokenize(" \t \r\n").is_empty());
}

#[test]
fn parse_id_reads_decimal_references() {
    assert_eq!(parse_id("0"), Some(0));
    assert_eq!(parse_id("123"), Some(123));
    assert_eq!(parse_id("007"), Some(7));
    assert_eq!(parse_id("9223372036854775807"), Some(i64::MAX));
}

#[test]
fn parse_id_rejects_what_does_not_fit() {
    assert_eq!(parse_id(""), None);
    assert_eq!(parse_id("12a"), None);
    assert_eq!(parse_id("-1"), None);
    assert_eq!(parse_id("9223372036854775808"), None);
    assert_eq!(parse_id("99999999999999999999999"), None);
}

#[test]
fn u64_to_string_prints_decimal() {
    assert_eq!(u64_to_string(0), "0");
    assert_eq!(u64_to_string(7), "7");
    assert_eq!(u64_to_string(1981), "1981");
    assert_eq!(u64_to_string(u64::MAX), "18446744073709551615");
}

#[test]
fn join_with_separates_neighbours() {
    let parts = vec!["a".to_string(), "b".to_string(), "c".to_string()];
    assert_eq!(join_with(&parts, " | "), "a | b | c");
    let one = vec!["solo".to_string()];
    assert_eq!(join_with(&one, " | "), "solo");
    let none: Vec<String> = Vec::new();
    assert_eq!(join_with(&none, " | "), "");
}

#[test]
fn name_comparison_ignores_ascii_case() {
    assert!(eq_ignore_ascii_case("LOGIN", "login"));
    assert!(eq_ignore_ascii_case("msg", "MSG"));
    assert!(eq_ignore_ascii_case("Quit", "quit"));
    assert!(!eq_ignore_ascii_case("login", "logout"));
    assert!(!eq_ignore_ascii_case("log", "login"));
}
