//! The permission authority: memoized approval, re-prompting, and the
//! auto-approve bypass.

use deputy::permissions::{PermissionRecord, PromptChoice, interpret_prompt_response};
use deputy::session::Session;

#[test]
fn approval_is_memoized_per_fingerprint() {
    let mut record = PermissionRecord::new();
    assert!(record.requires_prompt(false, "exec_command", "git"));

    let allowed = record.record_choice("exec_command", "git", &PromptChoice::AlwaysAllow);
    assert!(allowed);

    // Same tool, same fingerprint: never re-prompts.
    assert!(!record.requires_prompt(false, "exec_command", "git"));
    // Same tool, different fingerprint: always re-prompts.
    assert!(record.requires_prompt(false, "exec_command", "rm"));
    // Other tools are untouched.
    assert!(record.requires_prompt(false, "write_file", "write_file"));
}

#[test]
fn new_approval_overwrites_previous_fingerprint() {
    let mut record = PermissionRecord::new();
    record.record_choice("exec_command", "git", &PromptChoice::AlwaysAllow);
    record.record_choice("exec_command", "cargo", &PromptChoice::AlwaysAllow);
    assert!(!record.requires_prompt(false, "exec_command", "cargo"));
    assert!(record.requires_prompt(false, "exec_command", "git"));
}

#[test]
fn allow_once_and_deny_leave_no_standing_approval() {
    let mut record = PermissionRecord::new();
    assert!(record.record_choice("exec_command", "git", &PromptChoice::AllowOnce));
    assert!(record.requires_prompt(false, "exec_command", "git"));
    assert!(!record.record_choice("exec_command", "git", &PromptChoice::Deny));
    assert!(record.requires_prompt(false, "exec_command", "git"));
}

#[test]
fn auto_approve_bypasses_everything() {
    let record = PermissionRecord::new();
    assert!(!record.requires_prompt(true, "exec_command", "anything"));

    let mut session = Session::new(vec!["exec_command".to_string()], true);
    assert!(session.is_auto_approve());
    // No prompt regardless of the record's state.
    assert!(!session.requires_prompt("exec_command", "git"));
    session.record_prompt_choice("exec_command", "git", &PromptChoice::AlwaysAllow);
    assert!(!session.requires_prompt("exec_command", "rm"));
}

#[test]
fn prompt_responses_read_as_documented() {
    assert_eq!(
        interpret_prompt_response(&Some("1".to_string())),
        PromptChoice::AllowOnce
    );
    assert_eq!(
        interpret_prompt_response(&Some("2".to_string())),
        PromptChoice::AlwaysAllow
    );
    assert_eq!(interpret_prompt_response(&Some("3".to_string())), PromptChoice::Deny);
    assert_eq!(
        interpret_prompt_response(&Some("anything else".to_string())),
        PromptChoice::Deny
    );
    assert_eq!(interpret_prompt_response(&None), PromptChoice::Deny);
}
