//! End-to-end turn scenarios driven against the session state machine.

use deputy::message::Message;
use deputy::permissions::PromptChoice;
use deputy::session::{
    CallOutcome, Session, ToolCallBatch, UserInputAction, classify_user_input, permission_prompt,
    create_denial_message, create_cancellation_message, extract_tool_id,
};
use deputy::tools::registry::ToolRegistry;

fn tool_call(id: &str, name: &str, args: &str) -> Message {
    Message::ToolCall {
        id: Some(id.to_string()),
        tool_name: name.to_string(),
        arguments: args.to_string(),
    }
}

#[test]
fn list_files_turn_has_exact_history() {
    let registry = ToolRegistry::with_default_tools();
    let mut session = Session::new(registry.tool_names(), false);

    let user = Message::User("list files".to_string());
    let call = tool_call("t1", "list_files_tool", "{\"path\":\"\"}");

    assert!(session.tool_registered("list_files_tool"));
    let calls = session.absorb_model_response(user.clone(), vec![call.clone()]);
    assert_eq!(calls.len(), 1);
    assert_eq!(calls[0], call);
    assert_eq!(session.message_history().len(), 1);

    let mut batch = ToolCallBatch::new(calls);
    assert!(batch.needs_execution());
    assert!(session.requires_prompt("list_files_tool", "list_files"));
    let allowed =
        session.record_prompt_choice("list_files_tool", "list_files", &PromptChoice::AllowOnce);
    assert!(allowed);

    batch.apply_outcome(CallOutcome::Succeeded { output: "file_a\nfile_b\n".to_string() });
    assert!(batch.is_done());

    let next = session.finish_batch(batch).expect("turn should continue");
    let expected_result = Message::ToolResult {
        id: Some("t1".to_string()),
        output: "file_a\nfile_b\n".to_string(),
        is_error: false,
    };
    assert_eq!(next, expected_result);

    // The next model invocation receives exactly [User, ToolCall] plus the
    // pending result.
    assert_eq!(session.message_history().len(), 2);
    assert_eq!(session.message_history()[0], user);
    assert_eq!(session.message_history()[1], call);

    let reply = Message::Model("Here are your files.".to_string());
    let calls2 = session.absorb_model_response(next, vec![reply.clone()]);
    assert!(calls2.is_empty());

    let history = session.message_history();
    assert_eq!(history.len(), 4);
    assert_eq!(history[2], expected_result);
    assert_eq!(history[3], reply);
}

#[test]
fn batch_denial_cancels_remainder() {
    let mut session = Session::new(vec!["write_file".to_string()], false);
    let a = tool_call("a", "write_file", "{}");
    let b = tool_call("b", "write_file", "{}");
    let c = tool_call("c", "write_file", "{}");

    let calls = session.absorb_model_response(
        Message::User("do three things".to_string()),
        vec![a.clone(), b.clone(), c.clone()],
    );
    let mut batch = ToolCallBatch::new(calls);

    // A executes.
    batch.apply_outcome(CallOutcome::Succeeded { output: "ok-a".to_string() });
    assert!(batch.needs_execution());

    // B is denied: the remainder of the batch must not execute.
    batch.apply_denial();
    assert!(!batch.needs_execution());
    assert!(!batch.is_done());

    // C is auto-cancelled, never executed.
    batch.apply_cancellation();
    assert!(batch.is_done());

    let next = session.finish_batch(batch);
    assert!(next.is_none(), "a denial ends the turn");

    let history = session.message_history();
    assert_eq!(history.len(), 7);
    assert_eq!(history[1], a);
    assert_eq!(
        history[2],
        Message::ToolResult {
            id: Some("a".to_string()),
            output: "ok-a".to_string(),
            is_error: false,
        }
    );
    assert_eq!(history[3], b);
    assert_eq!(
        history[4],
        Message::ToolResult {
            id: Some("b".to_string()),
            output: "The user denied this tool call. Control has been returned to the user to provide guidance on how to proceed differently.".to_string(),
            is_error: true,
        }
    );
    assert_eq!(history[5], c);
    assert_eq!(
        history[6],
        Message::ToolResult {
            id: Some("c".to_string()),
            output: "Tool execution cancelled because the user denied a previous tool call in this batch. Control has been returned to the user to provide guidance on how to proceed.".to_string(),
            is_error: true,
        }
    );
}

#[test]
fn failing_tool_call_becomes_error_result_and_continues() {
    let mut session = Session::new(vec!["exec_command".to_string()], false);
    let call = tool_call("x", "exec_command", "{\"command\":\"false\"}");
    let calls =
        session.absorb_model_response(Message::User("run it".to_string()), vec![call.clone()]);
    let mut batch = ToolCallBatch::new(calls);
    batch.apply_outcome(CallOutcome::Failed { error_text: "command failed".to_string() });
    assert!(batch.is_done());
    let next = session.finish_batch(batch).expect("a tool failure does not end the turn");
    assert_eq!(
        next,
        Message::ToolResult {
            id: Some("x".to_string()),
            output: "command failed".to_string(),
            is_error: true,
        }
    );
}

#[test]
fn other_messages_join_history_in_order() {
    let mut session = Session::new(Vec::new(), false);
    let m1 = Message::Model("first".to_string());
    let m2 = Message::Model("second".to_string());
    let call = tool_call("t", "exec_command", "{}");
    let calls = session.absorb_model_response(
        Message::User("hi".to_string()),
        vec![m1.clone(), call.clone(), m2.clone()],
    );
    assert_eq!(calls, vec![call]);
    let history = session.message_history();
    assert_eq!(history.len(), 3);
    assert_eq!(history[0], Message::User("hi".to_string()));
    assert_eq!(history[1], m1);
    assert_eq!(history[2], m2);
}

#[test]
fn unregistered_tool_is_reported() {
    let session = Session::new(vec!["write_file".to_string()], false);
    assert!(!session.tool_registered("no_such_tool"));
    assert!(session.tool_registered("write_file"));
}

#[test]
fn user_input_classification() {
    assert_eq!(classify_user_input(""), UserInputAction::Skip);
    assert_eq!(classify_user_input("exit"), UserInputAction::Exit);
    assert_eq!(classify_user_input("hello"), UserInputAction::Send);
}

#[test]
fn permission_prompt_text() {
    assert_eq!(
        permission_prompt("git"),
        "[1: allow, 2: always allow for git, 3: deny and tell me what to do differently] > "
    );
}

#[test]
fn denial_and_cancellation_messages() {
    let call = tool_call("id9", "exec_command", "{}");
    let denial = create_denial_message(&call);
    assert_eq!(
        denial,
        Message::ToolResult {
            id: Some("id9".to_string()),
            output: "The user denied this tool call. Control has been returned to the user to provide guidance on how to proceed differently.".to_string(),
            is_error: true,
        }
    );
    let cancel = create_cancellation_message(&call);
    match cancel {
        Message::ToolResult { id, is_error, .. } => {
            assert_eq!(id, Some("id9".to_string()));
            assert!(is_error);
        }
        other => panic!("unexpected message: {:?}", other),
    }
    // A cancellation keeps an absent id absent.
    let anon = Message::ToolCall {
        id: None,
        tool_name: "exec_command".to_string(),
        arguments: "{}".to_string(),
    };
    match create_cancellation_message(&anon) {
        Message::ToolResult { id, .. } => assert_eq!(id, None),
        other => panic!("unexpected message: {:?}", other),
    }
    assert_eq!(extract_tool_id(&anon), "".to_string());
    assert_eq!(extract_tool_id(&call), "id9".to_string());
}
