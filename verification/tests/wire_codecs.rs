//! The two vendor wire codecs: encodings, echo round trips, response
//! decoding, and the id requirement at the provider boundary.

use deputy::anthropic;
use deputy::errors::ModelError;
use deputy::message::Message;
use deputy::openai;

fn tool_call(id: &str, name: &str, args: &str) -> Message {
    Message::ToolCall {
        id: Some(id.to_string()),
        tool_name: name.to_string(),
        arguments: args.to_string(),
    }
}

#[test]
fn anthropic_round_trips() {
    let samples = vec![
        Message::User("hello".to_string()),
        Message::Model("world".to_string()),
        tool_call("t1", "exec_command", "{\"command\":\"ls\"}"),
        Message::ToolResult {
            id: Some("t1".to_string()),
            output: "done".to_string(),
            is_error: false,
        },
        Message::ToolResult {
            id: Some("t2".to_string()),
            output: "boom".to_string(),
            is_error: true,
        },
    ];
    for m in samples {
        let wire = anthropic::encode_message(&m).expect("encodes");
        let back = anthropic::decode_message(&wire).expect("decodes");
        assert_eq!(back, m);
    }
}

#[test]
fn anthropic_wire_shapes() {
    let wire = anthropic::encode_message(&Message::User("hi".to_string())).unwrap();
    assert_eq!(wire.role, anthropic::Role::User);
    assert_eq!(wire.content, vec![anthropic::ContentBlock::Text { text: "hi".to_string() }]);

    let wire = anthropic::encode_message(&tool_call("id1", "write_file", "{}")).unwrap();
    assert_eq!(wire.role, anthropic::Role::Assistant);
    assert_eq!(
        wire.content,
        vec![anthropic::ContentBlock::ToolUse {
            id: "id1".to_string(),
            name: "write_file".to_string(),
            input: "{}".to_string(),
        }]
    );

    let wire = anthropic::encode_message(&Message::ToolResult {
        id: Some("id1".to_string()),
        output: "out".to_string(),
        is_error: true,
    })
    .unwrap();
    assert_eq!(wire.role, anthropic::Role::User);
    assert_eq!(
        wire.content,
        vec![anthropic::ContentBlock::ToolResult {
            tool_use_id: "id1".to_string(),
            content: "out".to_string(),
            is_error: Some(true),
        }]
    );
}

#[test]
fn anthropic_requires_ids_on_the_wire() {
    let call = Message::ToolCall {
        id: None,
        tool_name: "write_file".to_string(),
        arguments: "{}".to_string(),
    };
    match anthropic::encode_message(&call) {
        Err(ModelError::Request { reason }) => {
            assert_eq!(reason, "all tool calls are expected to have an id");
        }
        other => panic!("expected a request error, got {:?}", other),
    }
    let result = Message::ToolResult { id: None, output: "x".to_string(), is_error: false };
    match anthropic::encode_message(&result) {
        Err(ModelError::Request { reason }) => {
            assert_eq!(reason, "all tool results are expected to have an id");
        }
        other => panic!("expected a request error, got {:?}", other),
    }
}

#[test]
fn anthropic_response_decoding() {
    let blocks = vec![
        anthropic::ContentBlock::Text { text: "thinking out loud".to_string() },
        anthropic::ContentBlock::ToolUse {
            id: "c1".to_string(),
            name: "read_files".to_string(),
            input: "{\"paths\":[]}".to_string(),
        },
    ];
    let messages = anthropic::decode_response_blocks(&blocks).expect("supported blocks");
    assert_eq!(
        messages,
        vec![
            Message::Model("thinking out loud".to_string()),
            tool_call("c1", "read_files", "{\"paths\":[]}"),
        ]
    );
}

#[test]
fn anthropic_rejects_unsupported_blocks() {
    let blocks = vec![
        anthropic::ContentBlock::Text { text: "fine".to_string() },
        anthropic::ContentBlock::Thinking {
            thinking: "hmm".to_string(),
            signature: "sig".to_string(),
        },
    ];
    match anthropic::decode_response_blocks(&blocks) {
        Err(ModelError::Request { reason }) => {
            assert_eq!(
                reason,
                "invalid response from anthropic: Only Text and ToolUse blocks are supported"
            );
        }
        other => panic!("expected a request error, got {:?}", other),
    }
}

#[test]
fn anthropic_encodes_history_then_current() {
    let history = vec![Message::User("one".to_string()), Message::Model("two".to_string())];
    let current = Message::User("three".to_string());
    let wires = anthropic::encode_messages(&history, &current).unwrap();
    assert_eq!(wires.len(), 3);
    assert_eq!(wires[0].role, anthropic::Role::User);
    assert_eq!(wires[1].role, anthropic::Role::Assistant);
    assert_eq!(wires[2].role, anthropic::Role::User);
    assert_eq!(
        wires[2].content,
        vec![anthropic::ContentBlock::Text { text: "three".to_string() }]
    );
}

#[test]
fn openai_round_trips() {
    let samples = vec![
        Message::User("hello".to_string()),
        Message::Model("world".to_string()),
        tool_call("t1", "exec_command", "{\"command\":\"ls\"}"),
        Message::ToolResult {
            id: Some("t1".to_string()),
            output: "done".to_string(),
            is_error: false,
        },
    ];
    for m in samples {
        let wire = openai::encode_message(&m).expect("encodes");
        let back = openai::decode_message(&wire).expect("decodes");
        assert_eq!(back, m);
    }
}

#[test]
fn openai_wire_drops_the_error_flag() {
    // This wire format has no place for a tool result's error flag; the
    // echo comes back with the flag clear.
    let m = Message::ToolResult {
        id: Some("t9".to_string()),
        output: "failed".to_string(),
        is_error: true,
    };
    let wire = openai::encode_message(&m).unwrap();
    assert_eq!(wire.role, openai::Role::Tool);
    assert_eq!(wire.content, Some("failed".to_string()));
    assert_eq!(wire.tool_call_id, Some("t9".to_string()));
    let back = openai::decode_message(&wire).unwrap();
    assert_eq!(
        back,
        Message::ToolResult {
            id: Some("t9".to_string()),
            output: "failed".to_string(),
            is_error: false,
        }
    );
}

#[test]
fn openai_tool_call_wire_shape() {
    let wire = openai::encode_message(&tool_call("id7", "write_file", "{\"path\":\"a\"}")).unwrap();
    assert_eq!(wire.role, openai::Role::Assistant);
    assert_eq!(wire.content, None);
    assert_eq!(
        wire.tool_calls,
        Some(vec![openai::ToolCall {
            id: "id7".to_string(),
            call_type: "function".to_string(),
            function: openai::FunctionCall {
                name: "write_file".to_string(),
                arguments: "{\"path\":\"a\"}".to_string(),
            },
        }])
    );
}

#[test]
fn openai_requires_ids_on_the_wire() {
    let call = Message::ToolCall {
        id: None,
        tool_name: "write_file".to_string(),
        arguments: "{}".to_string(),
    };
    assert!(openai::encode_message(&call).is_err());
}

#[test]
fn openai_choice_decoding() {
    let choice = openai::Choice {
        index: 0,
        message: openai::Message {
            role: openai::Role::Assistant,
            content: Some("let me check".to_string()),
            tool_calls: Some(vec![openai::ToolCall {
                id: "c2".to_string(),
                call_type: "function".to_string(),
                function: openai::FunctionCall {
                    name: "list_files_tool".to_string(),
                    arguments: "{\"path\":\"src\"}".to_string(),
                },
            }]),
            tool_call_id: None,
        },
        finish_reason: Some(openai::FinishReason::ToolCalls),
    };
    let messages = openai::decode_choices(&vec![choice]).expect("valid choice");
    assert_eq!(
        messages,
        vec![
            Message::Model("let me check".to_string()),
            tool_call("c2", "list_files_tool", "{\"path\":\"src\"}"),
        ]
    );
}

#[test]
fn openai_rejects_unparsable_arguments() {
    let choice = openai::Choice {
        index: 0,
        message: openai::Message {
            role: openai::Role::Assistant,
            content: None,
            tool_calls: Some(vec![openai::ToolCall {
                id: "c3".to_string(),
                call_type: "function".to_string(),
                function: openai::FunctionCall {
                    name: "list_files_tool".to_string(),
                    arguments: "{not json".to_string(),
                },
            }]),
            tool_call_id: None,
        },
        finish_reason: None,
    };
    match openai::decode_choices(&vec![choice]) {
        Err(ModelError::Request { reason }) => {
            assert_eq!(reason, "invalid response from openai: Failed to parse tool arguments");
        }
        other => panic!("expected a request error, got {:?}", other),
    }
}

#[test]
fn adapters_default_endpoints() {
    let a = anthropic::AnthropicModel::new(
        "key".to_string(),
        "some-model".to_string(),
        5000,
        None,
        None,
        None,
    );
    assert_eq!(a.base_url, "https://api.anthropic.com/v1");
    let o = openai::OpenAIModel::new(
        "key".to_string(),
        "some-model".to_string(),
        Some(5000),
        None,
        Some("http://localhost:11434/v1".to_string()),
    );
    assert_eq!(o.base_url, "http://localhost:11434/v1");
    let req = o.build_request(Vec::new());
    assert_eq!(req.model, "some-model");
    assert_eq!(req.max_tokens, Some(5000));
}
