//! The shell-execution tool: fingerprinting, preview and output formatting.
//!
//! The command itself runs outside the library; these functions decide the
//! permission fingerprint from the arguments and render the command's
//! captured output.

use vstd::prelude::*;
use crate::errors::ToolError;
use crate::jsonutil::{json_str_field, json_string_field};
use crate::strutil::{first_token, first_token_spec, push_chars, string_from_chars, lines_spec,
    split_lines, string_views, join_with, join_strings};

verus! {

/// The tool's registered name.
pub open spec fn name_text() -> Seq<char> {
    "exec_command"@
}

/// The tool's model-facing description.
pub open spec fn description_text() -> Seq<char> {
    "Execute a bash command in the current working directory."@
}

/// The tool's input schema, as JSON text.
pub open spec fn schema_text() -> Seq<char> {
    "{\"type\":\"object\",\"properties\":{\"command\":{\"type\":\"string\",\"description\":\"The bash command to execute.\"}},\"required\":[\"command\"]}"@
}

/// One red-colored line of error output.
pub open spec fn red_line_spec(l: Seq<char>) -> Seq<char> {
    "\u{1b}[31m"@ + l + "\u{1b}[0m"@
}

/// Every line red-colored.
pub open spec fn red_lines_spec(ls: Seq<Seq<char>>) -> Seq<Seq<char>> {
    Seq::new(ls.len(), |j: int| red_line_spec(ls[j]))
}

/// The combined output fed back to the model: the captured streams under
/// `STDOUT:`/`STDERR:` headers, each present only when non-empty.
pub open spec fn exec_result_spec(stdout: Seq<char>, stderr: Seq<char>) -> Seq<char> {
    if stdout.len() > 0 && stderr.len() > 0 {
        "STDOUT:\n"@ + stdout + "\n"@ + "STDERR:\n"@ + stderr
    } else if stdout.len() > 0 {
        "STDOUT:\n"@ + stdout
    } else if stderr.len() > 0 {
        "STDERR:\n"@ + stderr
    } else {
        Seq::<char>::empty()
    }
}

/// The snippet shown to the operator: the error stream red-colored in full
/// when there is one, otherwise the first ten lines of the output stream.
pub open spec fn exec_snippet_spec(stdout: Seq<char>, stderr: Seq<char>) -> Seq<char> {
    if stderr.len() > 0 {
        join_with(red_lines_spec(lines_spec(stderr)), '\n')
    } else {
        let ls = lines_spec(stdout);
        join_with(ls.take(if ls.len() < 10 { ls.len() as int } else { 10 }), '\n')
    }
}

/// The shell-execution tool.
#[derive(Debug, Clone, Copy, PartialEq, Eq, Structural)]
pub struct ExecCommandTool;

/// The tool's parsed arguments.
#[derive(Debug, Clone, PartialEq, Eq)]
pub struct Input {
    pub command: String,
}

impl ExecCommandTool {
    /// The tool's registered name.
    pub fn name(&self) -> (r: String)
        ensures
            r@ == name_text(),
    {
        "exec_command".to_owned()
    }

    /// The tool's model-facing description.
    pub fn description(&self) -> (r: String)
        ensures
            r@ == description_text(),
    {
        "Execute a bash command in the current working directory.".to_owned()
    }

    /// The tool's input schema, as JSON text.
    pub fn input_schema(&self) -> (r: String)
        ensures
            r@ == schema_text(),
    {
        "{\"type\":\"object\",\"properties\":{\"command\":{\"type\":\"string\",\"description\":\"The bash command to execute.\"}},\"required\":[\"command\"]}".to_owned()
    }

    /// The permission fingerprint of a call: the command's first token, so
    /// that similar invocations share a standing approval. Arguments without
    /// a string `command` field are rejected.
    pub fn permission_id(&self, args: &str) -> (r: Result<String, ToolError>)
        ensures
            match json_str_field(args@, "command"@) {
                Option::Some(cmd) => r matches Ok(t) && t@ == first_token_spec(cmd),
                Option::None => r matches Err(e) && (e matches ToolError::InvalidArguments {
                    reason,
                } && reason@ == "exec_command: missing string field: command"@),
            },
    {
        match json_string_field(args, "command") {
            Option::Some(cmd) => Result::Ok(first_token(cmd.as_str())),
            Option::None => Result::Err(
                ToolError::InvalidArguments {
                    reason: "exec_command: missing string field: command".to_owned(),
                },
            ),
        }
    }

    /// The preview text shown before prompting: the command itself, or a
    /// placeholder where the arguments are malformed — the preview degrades
    /// gracefully rather than aborting.
    pub fn permission_preview(&self, args: &str) -> (r: String)
        ensures
            match json_str_field(args@, "command"@) {
                Option::Some(cmd) => r@ == cmd,
                Option::None => r@ == "<invalid command>"@,
            },
    {
        match json_string_field(args, "command") {
            Option::Some(cmd) => cmd,
            Option::None => "<invalid command>".to_owned(),
        }
    }

    /// Renders the combined output fed back to the model.
    pub fn format_output(&self, stdout: &str, stderr: &str) -> (r: String)
        ensures
            r@ == exec_result_spec(stdout@, stderr@),
    {
        let mut v: Vec<char> = Vec::new();
        if !stdout.is_empty() {
            push_chars(&mut v, "STDOUT:\n");
            push_chars(&mut v, stdout);
        }
        if !stderr.is_empty() {
            if !stdout.is_empty() {
                push_chars(&mut v, "\n");
            }
            push_chars(&mut v, "STDERR:\n");
            push_chars(&mut v, stderr);
        }
        string_from_chars(&v)
    }

    /// Renders the snippet shown to the operator.
    pub fn format_snippet(&self, stdout: &str, stderr: &str) -> (r: String)
        ensures
            r@ == exec_snippet_spec(stdout@, stderr@),
    {
        if !stderr.is_empty() {
            let lines = split_lines(stderr);
            let mut colored: Vec<String> = Vec::new();
            let mut i: usize = 0;
            while i < lines.len()
                invariant
                    i <= lines@.len(),
                    colored@.len() == i,
                    string_views(lines@) == lines_spec(stderr@),
                    forall|j: int|
                        0 <= j < i ==> colored@[j]@ == red_line_spec(string_views(lines@)[j]),
                decreases lines@.len() - i,
            {
                let mut v: Vec<char> = Vec::new();
                push_chars(&mut v, "\u{1b}[31m");
                push_chars(&mut v, lines[i].as_str());
                push_chars(&mut v, "\u{1b}[0m");
                proof {
                    assert(string_views(lines@)[i as int] == lines@[i as int]@);
                }
                colored.push(string_from_chars(&v));
                i = i + 1;
            }
            proof {
                assert(string_views(colored@) =~= red_lines_spec(lines_spec(stderr@)));
            }
            join_strings(&colored, '\n')
        } else {
            let lines = split_lines(stdout);
            let n = if lines.len() < 10 {
                lines.len()
            } else {
                10
            };
            let mut head: Vec<String> = Vec::new();
            let mut i: usize = 0;
            while i < n
                invariant
                    i <= n,
                    n <= lines@.len(),
                    string_views(lines@) == lines_spec(stdout@),
                    head@ == lines@.subrange(0, i as int),
                decreases n - i,
            {
                head.push(lines[i].clone());
                i = i + 1;
                proof {
                    assert(head@ =~= lines@.subrange(0, i as int));
                }
            }
            proof {
                assert(string_views(head@) =~= lines_spec(stdout@).take(n as int));
            }
            join_strings(&head, '\n')
        }
    }
}

} // verus!
