//! The built-in tools' pure logic: fingerprints, previews, output
//! formatting, line edits and the registry.

use deputy::errors::ToolError;
use deputy::tools::exec_command::ExecCommandTool;
use deputy::tools::list_files::{ListFilesTool, ListingEntry};
use deputy::tools::read_files::ReadFilesTool;
use deputy::tools::registry::{ToolRegistry, anthropic_tool_defs, openai_tool_defs};
use deputy::tools::write_file::{Range, WriteFileTool, replace_range};

#[test]
fn exec_fingerprint_is_the_first_token() {
    let tool = ExecCommandTool;
    assert_eq!(
        tool.permission_id("{\"command\":\"git status -s\"}").unwrap(),
        "git".to_string()
    );
    assert_eq!(
        tool.permission_id("{\"command\":\"  cargo build\"}").unwrap(),
        "cargo".to_string()
    );
    assert_eq!(tool.permission_id("{\"command\":\"\"}").unwrap(), "".to_string());
}

#[test]
fn exec_fingerprint_rejects_malformed_arguments() {
    let tool = ExecCommandTool;
    match tool.permission_id("{}") {
        Err(ToolError::InvalidArguments { reason }) => {
            assert_eq!(reason, "exec_command: missing string field: command");
        }
        other => panic!("expected invalid arguments, got {:?}", other),
    }
    assert!(tool.permission_id("not json at all").is_err());
    assert!(tool.permission_id("{\"command\": 7}").is_err());
}

#[test]
fn exec_preview_degrades_gracefully() {
    let tool = ExecCommandTool;
    assert_eq!(tool.permission_preview("{\"command\":\"ls -la\"}"), "ls -la");
    assert_eq!(tool.permission_preview("{broken"), "<invalid command>");
}

#[test]
fn exec_output_formatting() {
    let tool = ExecCommandTool;
    assert_eq!(tool.format_output("out\n", ""), "STDOUT:\nout\n");
    assert_eq!(tool.format_output("", "err\n"), "STDERR:\nerr\n");
    assert_eq!(tool.format_output("out\n", "err\n"), "STDOUT:\nout\n\nSTDERR:\nerr\n");
    assert_eq!(tool.format_output("", ""), "");
}

#[test]
fn exec_snippet_colors_errors_and_trims_output() {
    let tool = ExecCommandTool;
    assert_eq!(
        tool.format_snippet("ignored", "e1\ne2\n"),
        "\u{1b}[31me1\u{1b}[0m\n\u{1b}[31me2\u{1b}[0m"
    );
    let stdout = "l1\nl2\nl3\nl4\nl5\nl6\nl7\nl8\nl9\nl10\nl11\nl12\n";
    assert_eq!(
        tool.format_snippet(stdout, ""),
        "l1\nl2\nl3\nl4\nl5\nl6\nl7\nl8\nl9\nl10"
    );
}

#[test]
fn replace_range_splices_lines() {
    let range = Range { start: 2, end: 2 };
    assert_eq!(replace_range("l1\nl2\nl3", &range, "x1\nx2"), "l1\nx1\nx2\nl3");
    let whole = Range { start: 1, end: 3 };
    assert_eq!(replace_range("l1\nl2\nl3", &whole, "new"), "new");
    let empty_insert = Range { start: 2, end: 1 };
    assert_eq!(replace_range("l1\nl2", &empty_insert, "mid"), "l1\nmid\nl2");
}

#[test]
fn read_files_samples_the_requested_window() {
    let tool = ReadFilesTool;
    let data = "a\nb\nc\nd";
    assert_eq!(tool.sample_lines(data, &Some(2), &Some(1)), "b\nc");
    assert_eq!(tool.sample_lines(data, &None, &None), "a\nb\nc\nd");
    assert_eq!(tool.sample_lines(data, &Some(10), &Some(2)), "c\nd");
    assert_eq!(tool.sample_lines(data, &Some(0), &Some(0)), "");
    assert_eq!(
        tool.format_entry("/tmp/a", "hello"),
        "<path>\n/tmp/a\n</path>\n<data>\nhello\n</data>\n"
    );
    assert_eq!(
        tool.format_error_entry("/tmp/a", "No such file"),
        "<path>\n/tmp/a\n</path>\n<error>\nNo such file\n</error>\n"
    );
}

#[test]
fn listing_renders_in_walk_order() {
    let tool = ListFilesTool;
    let entries = vec![
        ListingEntry { path: "src".to_string(), depth: 0, is_dir: true },
        ListingEntry { path: "src/main.rs".to_string(), depth: 1, is_dir: false },
        ListingEntry { path: "README.md".to_string(), depth: 0, is_dir: false },
    ];
    assert_eq!(
        tool.format_listing(&entries),
        "src/ (directory)\n  src/main.rs\nREADME.md\n"
    );
    assert_eq!(tool.format_listing(&Vec::new()), "");
}

#[test]
fn registry_holds_the_four_builtin_tools() {
    let registry = ToolRegistry::with_default_tools();
    let names = registry.tool_names();
    let names: Vec<&str> = names.iter().map(|s| s.as_str()).collect();
    assert_eq!(names, vec!["list_files_tool", "read_files", "write_file", "exec_command"]);

    let defs = registry.into_tools();
    assert_eq!(defs.len(), 4);
    assert_eq!(defs[3].description, "Execute a bash command in the current working directory.");

    let a = anthropic_tool_defs(&defs);
    assert_eq!(a.len(), 4);
    assert_eq!(a[0].name, "list_files_tool");
    let o = openai_tool_defs(&defs);
    assert_eq!(o.len(), 4);
    assert_eq!(o[2].function.name, "write_file");
    assert!(o.iter().all(|t| t.tool_type == "function"));
}

#[test]
fn tool_identities() {
    assert_eq!(ExecCommandTool.name(), "exec_command");
    assert_eq!(ListFilesTool.name(), "list_files_tool");
    assert_eq!(ReadFilesTool.name(), "read_files");
    assert_eq!(WriteFileTool.name(), "write_file");
    assert_eq!(ListFilesTool.permission_id("{}"), "list_files");
    assert_eq!(ReadFilesTool.permission_id("{}"), "read_files");
    assert_eq!(WriteFileTool.permission_id("{}"), "write_file");
    assert!(ExecCommandTool.input_schema().contains("command"));
    assert!(WriteFileTool.input_schema().contains("range"));
}
