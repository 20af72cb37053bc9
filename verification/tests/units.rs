//! Unit tests of the tokenizer, the joiner and the decimal functions.

use bucket::num::{parse_u64, u64_to_string};
use bucket::text::{join_spaces, str_eq, tokenize};

#[test]
fn tokenize_splits_on_whitespace_runs() {
    let toks = tokenize("  a  b\tc\nd ");
    assert_eq!(toks, vec!["a", "b", "c", "d"]);
}

#[test]
fn tokenize_empty_and_blank() {
    assert_eq!(tokenize(""), Vec::<String>::new());
    assert_eq!(tokenize("   \t \n"), Vec::<String>::new());
}

#[test]
fn join_then_tokenize_round_trips() {
    let toks = vec!["best".to_string(), "with".to_string(), "milk".to_string()];
    let joined = join_spaces(&toks);
    assert_eq!(joined, "best with milk");
    assert_eq!(tokenize(&joined), toks);
}

#[test]
fn join_of_nothing_is_empty() {
    assert_eq!(join_spaces(&Vec::new()), "");
}

#[test]
fn str_eq_compares_contents() {
    assert!(str_eq("abc", "abc"));
    assert!(!str_eq("abc", "abd"));
    assert!(!str_eq("abc", "abcd"));
    assert!(str_eq("", ""));
}

#[test]
fn u64_to_string_exact() {
    assert_eq!(u64_to_string(0), "0");
    assert_eq!(u64_to_string(7), "7");
    assert_eq!(u64_to_string(1234567890), "1234567890");
    assert_eq!(u64_to_string(u64::MAX), "18446744073709551615");
}

#[test]
fn parse_u64_exact() {
    assert_eq!(parse_u64("0"), Some(0));
    assert_eq!(parse_u64("007"), Some(7));
    assert_eq!(parse_u64("1234567890"), Some(1234567890));
    assert_eq!(parse_u64("18446744073709551615"), Some(u64::MAX));
}

#[test]
fn parse_u64_rejects() {
    assert_eq!(parse_u64(""), None);
    assert_eq!(parse_u64("12a"), None);
    assert_eq!(parse_u64("-5"), None);
    assert_eq!(parse_u64(" 5"), None);
    assert_eq!(parse_u64("18446744073709551616"), None);
}
