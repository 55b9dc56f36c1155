use cozymdt::text::{contains, is_white_space_char, split_first_word, str_eq, strip_prefix, trim};

#[test]
fn trim_removes_unicode_white_space_at_both_ends() {
    assert_eq!(trim("  hello world \t\n"), "hello world");
    assert_eq!(trim("\u{3000}x\u{a0}"), "x");
    assert_eq!(trim("   "), "");
    assert_eq!(trim(""), "");
    assert_eq!(trim("a b"), "a b");
}

#[test]
fn trim_agrees_with_std() {
    for s in ["  a  ", "\u{2028}b\u{85}", "c", " \t ", "\u{200b}d"] {
        assert_eq!(trim(s), s.trim());
    }
}

#[test]
fn white_space_property() {
    assert!(is_white_space_char(' '));
    assert!(is_white_space_char('\u{205f}'));
    assert!(!is_white_space_char('\u{200b}'));
    assert!(!is_white_space_char('a'));
}

#[test]
fn strip_prefix_matches_std() {
    assert_eq!(strip_prefix("cd foo", "cd "), Some("foo"));
    assert_eq!(strip_prefix("cd", "cd "), None);
    assert_eq!(strip_prefix("x", ""), Some("x"));
    assert_eq!(strip_prefix("çab", "ç"), Some("ab"));
}

#[test]
fn contains_finds_substrings() {
    assert!(contains("a User interruption: CTRL+C b", "User interruption: CTRL+C"));
    assert!(!contains("User interruption", "User interruption: CTRL+C"));
    assert!(contains("abc", ""));
    assert!(contains("abc", "c"));
    assert!(!contains("", "a"));
}

#[test]
fn split_first_word_cuts_at_first_space() {
    assert_eq!(split_first_word("echo hi there"), ("echo", Some("hi there")));
    assert_eq!(split_first_word("ls"), ("ls", None));
    assert_eq!(split_first_word(" x"), ("", Some("x")));
    assert_eq!(split_first_word(""), ("", None));
    assert_eq!(split_first_word("a "), ("a", Some("")));
}

#[test]
fn str_eq_compares_characters() {
    assert!(str_eq("exit", "exit"));
    assert!(!str_eq("exit", "exit "));
    assert!(!str_eq("a", "b"));
}
