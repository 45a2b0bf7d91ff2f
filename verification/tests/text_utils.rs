//! The shared string helpers and the canonical message type.

use deputy::message::Message;
use deputy::strutil::{first_token, is_hidden_name, join_strings, split_lines, str_eqs,
    u64_decimal};

#[test]
fn decimal_rendering() {
    assert_eq!(u64_decimal(0), "0");
    assert_eq!(u64_decimal(7), "7");
    assert_eq!(u64_decimal(907), "907");
    assert_eq!(u64_decimal(18446744073709551615), "18446744073709551615");
}

#[test]
fn line_splitting_matches_line_semantics() {
    assert_eq!(split_lines(""), Vec::<String>::new());
    assert_eq!(split_lines("a"), vec!["a".to_string()]);
    assert_eq!(split_lines("a\nb"), vec!["a".to_string(), "b".to_string()]);
    assert_eq!(split_lines("a\nb\n"), vec!["a".to_string(), "b".to_string()]);
    assert_eq!(split_lines("a\n\nb"), vec!["a".to_string(), "".to_string(), "b".to_string()]);
    assert_eq!(split_lines("\n"), vec!["".to_string()]);
}

#[test]
fn joining_with_line_breaks() {
    let parts = vec!["a".to_string(), "".to_string(), "b".to_string()];
    assert_eq!(join_strings(&parts, '\n'), "a\n\nb");
    assert_eq!(join_strings(&Vec::new(), '\n'), "");
}

#[test]
fn first_tokens() {
    assert_eq!(first_token("git status -s"), "git");
    assert_eq!(first_token("   cargo   build"), "cargo");
    assert_eq!(first_token(""), "");
    assert_eq!(first_token("   "), "");
    assert_eq!(first_token("solo"), "solo");
}

#[test]
fn hidden_names_start_with_a_dot() {
    assert!(is_hidden_name(".git"));
    assert!(!is_hidden_name("src"));
    assert!(!is_hidden_name(""));
}

#[test]
fn string_equality_by_characters() {
    assert!(str_eqs("abc", "abc"));
    assert!(!str_eqs("abc", "abd"));
}

#[test]
fn messages_duplicate_equal() {
    let m = Message::ToolCall {
        id: Some("i".to_string()),
        tool_name: "exec_command".to_string(),
        arguments: "{}".to_string(),
    };
    assert_eq!(m.duplicate(), m);
    assert!(m.is_tool_call());
    assert!(!Message::User("x".to_string()).is_tool_call());
}
