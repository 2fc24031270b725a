use tg_bot::text::{concat_text, contains_str, join_texts, lower_text, parse_count, replace_text, split_text, trim_text};

#[test]
fn trims_white_space() {
    assert_eq!(trim_text("  a b \n"), "a b");
    assert_eq!(trim_text("\u{3000}x\u{a0}"), "x");
    assert_eq!(trim_text("   "), "");
}

#[test]
fn lower_case() {
    assert_eq!(lower_text("ДА Yes"), "да yes");
}

#[test]
fn substring_test() {
    assert!(contains_str("abc", "bc"));
    assert!(!contains_str("abc", "cb"));
    assert!(contains_str("abc", ""));
    assert!(!contains_str("", "a"));
}

#[test]
fn split_and_replace() {
    assert_eq!(split_text("a, b, c", ", "), vec!["a", "b", "c"]);
    assert_eq!(split_text("", ", "), vec![""]);
    assert_eq!(split_text("aaa", "aa"), vec!["", "a"]);
    assert_eq!(split_text("x<y<z", "<"), vec!["x", "y", "z"]);
    assert_eq!(replace_text("a<br>b<br>", "<br>", "\n"), "a\nb\n");
    assert_eq!(replace_text("aaa", "aa", "b"), "ba");
}

#[test]
fn counts_and_concatenation() {
    assert_eq!(parse_count("007"), Some(7));
    assert_eq!(parse_count("+"), None);
    assert_eq!(parse_count(" 1"), None);
    assert_eq!(concat_text("ab", "cd"), "abcd");
}

#[test]
fn joins_with_separator() {
    assert_eq!(join_texts(&vec!["a".to_string(), "b".to_string()], ", "), "a, b");
    assert_eq!(join_texts(&vec!["a".to_string()], ", "), "a");
    assert_eq!(join_texts(&Vec::new(), ", "), "");
}
