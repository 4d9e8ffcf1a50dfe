use actions_runner::path::child;
use actions_runner::text::{chars_of, contains, decode, starts_with, strip_prefix};

#[test]
fn chars_are_listed_in_order() {
    assert_eq!(chars_of("añb"), vec!['a', 'ñ', 'b']);
    assert_eq!(chars_of(""), Vec::<char>::new());
}

#[test]
fn prefix_is_recognised() {
    assert!(starts_with("2.300.0", "2.300.0"));
    assert!(starts_with("2.300.0\n", "2.300.0"));
    assert!(starts_with("2.300.0-custom", "2.300.0"));
    assert!(starts_with("anything", ""));
    assert!(starts_with("", ""));
}

#[test]
fn other_beginnings_are_no_prefix() {
    assert!(!starts_with("2.299.0", "2.300.0"));
    assert!(!starts_with("2.300", "2.300.0"));
    assert!(!starts_with("", "2"));
    assert!(!starts_with(" 2.300.0", "2.300.0"));
    assert!(!starts_with("x2.300.0", "2.300.0"));
}

#[test]
fn substring_is_found_wherever_it_stands() {
    assert!(contains("not installed", "not installed"));
    assert!(contains("service is not installed\n", "not installed"));
    assert!(contains("not installed yet", "not installed"));
    assert!(contains("abc", ""));
    assert!(contains("", ""));
    assert!(contains("aab", "ab"));
    assert!(contains("ñandú-osx-x64", "osx-x64"));
}

#[test]
fn missing_substring_is_not_found() {
    assert!(!contains("not  installed", "not installed"));
    assert!(!contains("Not Installed", "not installed"));
    assert!(!contains("stopped", "Stopped"));
    assert!(!contains("osx-x6", "osx-x64"));
    assert!(!contains("", "a"));
    assert!(!contains("ab", "abc"));
}

#[test]
fn prefix_is_stripped() {
    assert_eq!(strip_prefix("v2.300.0", "v"), Some("2.300.0".to_string()));
    assert_eq!(strip_prefix("v", "v"), Some(String::new()));
    assert_eq!(strip_prefix("vv1", "v"), Some("v1".to_string()));
    assert_eq!(strip_prefix("été", "é"), Some("té".to_string()));
    assert_eq!(strip_prefix("abc", ""), Some("abc".to_string()));
}

#[test]
fn text_without_the_prefix_is_not_stripped() {
    assert_eq!(strip_prefix("2.300.0", "v"), None);
    assert_eq!(strip_prefix("V2.300.0", "v"), None);
    assert_eq!(strip_prefix("", "v"), None);
    assert_eq!(strip_prefix("release v2", "v"), None);
}

#[test]
fn bytes_that_spell_text_are_decoded() {
    assert_eq!(decode(b"2.300.0\n"), Some("2.300.0\n"));
    assert_eq!(decode(b""), Some(""));
    assert_eq!(decode("añb".as_bytes()), Some("añb"));
}

#[test]
fn bytes_that_spell_no_text_are_not_decoded() {
    assert_eq!(decode(&[0xff]), None);
    assert_eq!(decode(&[b'a', 0xc3]), None);
    // an overlong encoding, a surrogate, a value above the last scalar
    assert_eq!(decode(&[0xc0, 0x80]), None);
    assert_eq!(decode(&[0xed, 0xa0, 0x80]), None);
    assert_eq!(decode(&[0xf4, 0x90, 0x80, 0x80]), None);
}

#[test]
fn child_path_puts_a_separator_between() {
    assert_eq!(child("/home/u/runner", ".runner"), "/home/u/runner/.runner");
    assert_eq!(child("", "svc.sh"), "/svc.sh");
    assert_eq!(child("a/", "b"), "a//b");
}
