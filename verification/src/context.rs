//! Session-wide configuration: the model settings, the assembled system
//! prompt, and the rendering of the startup file tree.
//!
//! Reading the working directory, instruction files and environment belongs
//! to the surrounding application; it hands the gathered values in here as
//! plain strings and flags.

use vstd::prelude::*;
use crate::errors::ConfigError;
use crate::provider::Provider;
use crate::strutil::{push_chars, string_from_chars, repeat_seq, repeat_str, join_with,
    string_views, join_strings};

verus! {

/// The opening of the system prompt, up to the working directory.
pub const PROMPT_INTRO: &'static str = "
                # Deputy



You are an agentic code assistant called deputy.

You will refer to yourself as the user's deputy.

# Tool calling

Use the tools available and your reasoning power to assist the user as best as you can.

- When making tool calls, I'd like you to explain in some detail what you are doing and why, so that the user understands the process. Be clear about the reasons for each tool call (unless it's blindingly obvious).
- Try to make as few as possible that will allow you to achieve your goals. Many tools might have batch functionality (like reading multiple files in one go); try using those where relevant.
- You can ask for more than one tool call in a single turn. If you want to read files, list some others, and make an edit to yet another, and maybe run a command too, you can just ask for all of these tool calls to be performed in a single turn. No need to do them one-by-one. The user will decide which ones to allow.

# Creative use of shell commands

**IMPORTANT**: You have access to shell command execution - use this creatively and extensively to gather information efficiently rather than reading entire files into context when unnecessary.

## Example command patterns (use these as inspiration, not limitations):

These are just examples to spark creativity - feel free to use any shell commands, tools, or combinations that help you efficiently gather the information you need:

**File discovery and analysis:**
- `find . -name \"*.rs\" -type f` - locate specific file types
- `find . -name \"*test*\" -type f` - find test files
- `rg \"function_name\" --type rust` - search for specific patterns (ripgrep)
- `grep -r \"TODO\" --include=\"*.rs\" .` - find TODOs, FIXMEs, etc.
- `ag -l \"import.*Component\"` - find files importing specific modules (silver searcher)

**Code analysis:**
- `wc -l src/**/*.rs` - count lines in source files
- `grep -c \"^fn \" src/main.rs` - count functions in a file
- `awk '/^struct/ { print $2 }' src/types.rs` - extract struct names
- `sed -n '/^impl/,/^}/p' file.rs` - extract implementation blocks
- `grep -A 5 -B 5 \"error_pattern\" logs/app.log` - context around matches

**Project structure insights:**
- `find . -name \"Cargo.toml\" -exec dirname {} \\;` - find all Rust projects
- `ls -la | grep \"^d\"` - list only directories
- `find . -type f | head -20` - quick sample of files
- `du -sh */ | sort -hr` - directory sizes
- `git log --oneline -10` - recent commits
- `git status --porcelain` - concise status

**Text processing and filtering:**
- `cut -d',' -f1-3 data.csv | head -5` - preview CSV columns
- `sort file.txt | uniq -c` - count unique lines
- `jq '.dependencies | keys' package.json` - extract JSON keys

**Think creatively!** Combine commands with pipes, use specialized tools available on the system, adapt commands for the specific language/framework, or invent entirely new approaches. The goal is efficient information gathering - these examples are just a starting point.

## Efficiency principles:
- Use shell commands to filter and summarize before reading files
- Prefer targeted searches over reading entire files
- Use command combinations with pipes for complex queries
- Extract specific sections rather than reading everything
- Use commands to validate assumptions before making changes

When you need information about the codebase, default to using shell commands first. Only read files directly when you need to see the actual implementation details or make modifications.

# Collaboration

Whenever the user asks something that is ambiguous, or when your tools give you multiple reasonable options,you need to work through the ambiguity together with the user.
The best way of doing this is by dialogue; ask the user questions to help figure out what they need, offer options and architectural approaches, and distil, in collaboration, a good plan of action.
This is especially important when figuring out product or UX issues, or working through engineering trade-offs.

If the user asks you to do something that is not possible, you will refuse and explain why.

# Style

You are succint and to the point. You're never jovial and you try to avoid cliches. You think through issues carefully and provide reasoned responses. Assume your user is intelligent, open-minded, and curious.

# Planning

When you are about to start working on a piece of code, you should always plan out your approach before starting. It is best to start off with a todo list and present that to the user for their feedback and approval.
Then, you work through the todo list step by step. Stop after each step and summarise what you have done, then tick off that item from the todo list. For each step, you should also consider the potential risks and benefits of the approach you are taking, and discuss these with the user. This will help ensure that you are making the best possible decisions for the project.

You should never just start editing files without a plan and without user approval.

# Context

You are currently operating from the following working directory: ";

/// What follows the working directory in the system prompt.
pub const PROMPT_INTRO_END: &'static str = ".
";

/// The opening of the file-tree section of the system prompt.
pub const PROMPT_TREE_HEAD: &'static str = "

## Initial Project Structure

Here is the file tree of the current working directory at startup (this may change as we work):

";

/// What follows the file tree in the system prompt.
pub const PROMPT_TREE_TAIL: &'static str = "

Note: This is a snapshot from when Deputy started. The actual file structure may have changed during our conversation as files are created, modified, or deleted.
";

/// The opening of the user-instruction section of the system prompt.
pub const PROMPT_INSTRUCTIONS_HEAD: &'static str = "\n
            # User instructions
            The user has provided the following instructions, which you should follow as best as possible, wherever relevant, unless the user has specifically given you
            permission to deviate from them. If you think you might benefit from deviating from them, then you should always ask the user for permission to do so.
        \n\n";

/// Model settings for a session. Validating the provider configuration
/// happens at construction, over the names of the environment variables the
/// application found set.
#[derive(Debug, Clone)]
pub struct ModelConfig {
    pub provider: Provider,
    pub model_name: String,
    pub base_url_override: Option<String>,
    pub yolo_mode: bool,
    pub max_tokens: u32,
}

impl ModelConfig {
    /// Creates a model configuration with the provided settings, after
    /// checking the provider's required environment variables against the
    /// set ones. The token budget defaults to 5,000.
    pub fn new(
        provider: Provider,
        model_name: String,
        yolo_mode: bool,
        base_url_override: Option<String>,
        available_env: &Vec<String>,
    ) -> (r: Result<Self, ConfigError>)
        ensures
            r is Ok <==> (forall|j: int|
                0 <= j < crate::provider::required_names(provider).len()
                    ==> crate::provider::name_present(
                    crate::provider::name_views(available_env@),
                    #[trigger] crate::provider::required_names(provider)[j],
                )),
            r matches Ok(c) ==> c.provider == provider && c.model_name == model_name
                && c.yolo_mode == yolo_mode && c.base_url_override == base_url_override
                && c.max_tokens == 5000,
            r matches Err(e) ==> e is Missing,
    {
        match provider.validate_configuration(available_env) {
            Result::Ok(()) => Result::Ok(
                ModelConfig {
                    provider,
                    model_name,
                    base_url_override,
                    yolo_mode,
                    max_tokens: 5000,
                },
            ),
            Result::Err(e) => Result::Err(e),
        }
    }
}

/// The session-wide prompt inputs: instruction-file text, the working
/// directory, and the rendered startup file tree, each gathered by the
/// surrounding application.
pub struct SessionConfig {
    agent_instructions: Option<String>,
    cwd: String,
    initial_file_tree: Option<String>,
}

/// The full system prompt over the prompt inputs.
pub open spec fn system_prompt_spec(
    cwd: Seq<char>,
    tree: Option<Seq<char>>,
    instructions: Option<Seq<char>>,
) -> Seq<char> {
    let base = PROMPT_INTRO@ + cwd + PROMPT_INTRO_END@;
    let with_tree = match tree {
        Option::Some(t) => base + PROMPT_TREE_HEAD@ + t + PROMPT_TREE_TAIL@,
        Option::None => base,
    };
    match instructions {
        Option::Some(ins) => with_tree + PROMPT_INSTRUCTIONS_HEAD@ + "<instructions>\n"@ + ins
            + "\n</instructions>\n"@,
        Option::None => with_tree,
    }
}

impl SessionConfig {
    /// The instruction-file text, where one was found.
    pub closed spec fn instructions_view(self) -> Option<Seq<char>> {
        crate::message::view_opt_string(self.agent_instructions)
    }

    /// The working directory.
    pub closed spec fn cwd_view(self) -> Seq<char> {
        self.cwd@
    }

    /// The rendered startup file tree, where the directory held anything.
    pub closed spec fn tree_view(self) -> Option<Seq<char>> {
        crate::message::view_opt_string(self.initial_file_tree)
    }

    /// Assembles a session configuration from the gathered inputs.
    pub fn new(
        agent_instructions: Option<String>,
        cwd: String,
        initial_file_tree: Option<String>,
    ) -> (r: Self)
        ensures
            r.instructions_view() == crate::message::view_opt_string(agent_instructions),
            r.cwd_view() == cwd@,
            r.tree_view() == crate::message::view_opt_string(initial_file_tree),
    {
        SessionConfig { agent_instructions, cwd, initial_file_tree }
    }

    /// Generates the system prompt for this session.
    pub fn to_system_prompt(&self) -> (r: String)
        ensures
            r@ == system_prompt_spec(self.cwd_view(), self.tree_view(), self.instructions_view()),
    {
        let mut v: Vec<char> = Vec::new();
        push_chars(&mut v, PROMPT_INTRO);
        push_chars(&mut v, self.cwd.as_str());
        push_chars(&mut v, PROMPT_INTRO_END);
        match &self.initial_file_tree {
            Option::Some(t) => {
                push_chars(&mut v, PROMPT_TREE_HEAD);
                push_chars(&mut v, t.as_str());
                push_chars(&mut v, PROMPT_TREE_TAIL);
            },
            Option::None => {},
        }
        match &self.agent_instructions {
            Option::Some(ins) => {
                push_chars(&mut v, PROMPT_INSTRUCTIONS_HEAD);
                push_chars(&mut v, "<instructions>\n");
                push_chars(&mut v, ins.as_str());
                push_chars(&mut v, "\n</instructions>\n");
            },
            Option::None => {},
        }
        string_from_chars(&v)
    }
}

/// The first source in the priority order that exists, if any: the index of
/// the first `true` flag.
pub fn choose_instruction_source(exists_flags: &Vec<bool>) -> (r: Option<usize>)
    ensures
        match r {
            Option::Some(i) => i < exists_flags@.len() && exists_flags@[i as int] && forall|j: int|
                0 <= j < i ==> !exists_flags@[j],
            Option::None => forall|j: int| 0 <= j < exists_flags@.len() ==> !exists_flags@[j],
        },
{
    let mut i: usize = 0;
    while i < exists_flags.len()
        invariant
            i <= exists_flags@.len(),
            forall|j: int| 0 <= j < i ==> !exists_flags@[j],
        decreases exists_flags@.len() - i,
    {
        if exists_flags[i] {
            return Option::Some(i);
        }
        i = i + 1;
    }
    Option::None
}

/// Mathematical model of a [`TreeEntry`].
pub struct TreeEntryView {
    pub name: Seq<char>,
    pub depth: nat,
    pub is_dir: bool,
}

/// One entry of the startup file tree, as the directory walk found it: its
/// file name, its depth below the root, and whether it is a directory.
#[derive(Debug, Clone, PartialEq, Eq)]
pub struct TreeEntry {
    pub name: String,
    pub depth: usize,
    pub is_dir: bool,
}

impl View for TreeEntry {
    type V = TreeEntryView;

    open spec fn view(&self) -> TreeEntryView {
        TreeEntryView { name: self.name@, depth: self.depth as nat, is_dir: self.is_dir }
    }
}

/// The rendered line of one tree entry: two spaces of indent per level, the
/// name, and a directory marker.
pub open spec fn tree_line_spec(e: TreeEntryView) -> Seq<char> {
    repeat_seq("  "@, e.depth) + (if e.is_dir {
        e.name + "/ (directory)"@
    } else {
        e.name
    })
}

/// The views of a vector of tree entries.
pub open spec fn tree_entry_views(v: Seq<TreeEntry>) -> Seq<TreeEntryView> {
    v.map_values(|e: TreeEntry| e@)
}

/// The rendered lines of the tree entries, in order.
pub open spec fn tree_lines_spec(es: Seq<TreeEntryView>) -> Seq<Seq<char>> {
    es.map_values(|e: TreeEntryView| tree_line_spec(e))
}

/// Renders the startup file tree from the entries the walk produced, one
/// line each in walk order; an empty walk yields no tree at all.
pub fn format_tree_entries(entries: &Vec<TreeEntry>) -> (r: Option<String>)
    ensures
        entries@.len() == 0 ==> r is None,
        entries@.len() > 0 ==> (r matches Some(s) && s@ == join_with(
            tree_lines_spec(tree_entry_views(entries@)),
            '\n',
        )),
{
    if entries.len() == 0 {
        return Option::None;
    }
    let mut lines: Vec<String> = Vec::new();
    let mut i: usize = 0;
    proof {
        assert(string_views(lines@) =~= tree_lines_spec(tree_entry_views(entries@)).take(0));
    }
    while i < entries.len()
        invariant
            i <= entries@.len(),
            lines@.len() == i,
            string_views(lines@) == tree_lines_spec(tree_entry_views(entries@)).take(i as int),
        decreases entries@.len() - i,
    {
        let e = &entries[i];
        let mut v: Vec<char> = repeat_str("  ", e.depth);
        push_chars(&mut v, e.name.as_str());
        if e.is_dir {
            push_chars(&mut v, "/ (directory)");
        }
        let line = string_from_chars(&v);
        proof {
            assert(line@ =~= tree_line_spec(entries@[i as int]@));
        }
        let ghost lpre = lines@;
        let ghost lv = line@;
        lines.push(line);
        i = i + 1;
        proof {
            let ghost target = tree_lines_spec(tree_entry_views(entries@));
            assert(tree_entry_views(entries@).len() == entries@.len());
            assert(target.len() == entries@.len());
            assert forall|j: int| 0 <= j < i implies string_views(lines@)[j] == target[j] by {
                assert(tree_entry_views(entries@)[j] == entries@[j]@);
                assert(target[j] == tree_line_spec(entries@[j]@));
                assert(string_views(lines@)[j] == lines@[j]@);
                if j < i - 1 {
                    assert(lines@[j] == lpre[j]);
                    assert(string_views(lpre)[j] == lpre[j]@);
                    assert(string_views(lpre)[j] == target.take(i as int - 1)[j]);
                } else {
                    assert(lines@[j]@ == lv);
                }
            }
            assert(string_views(lines@) =~= target.take(i as int));
        }
    }
    proof {
        assert(tree_lines_spec(tree_entry_views(entries@)).take(entries@.len() as int)
            =~= tree_lines_spec(tree_entry_views(entries@)));
    }
    Option::Some(join_strings(&lines, '\n'))
}

/// Everything a session carries besides its live state: the model settings
/// and the prompt inputs.
pub struct Context {
    pub model_config: ModelConfig,
    pub session_config: SessionConfig,
}

impl Context {
    /// Creates a new context from the provided model and session
    /// configuration.
    pub fn new(model_config: ModelConfig, session_config: SessionConfig) -> (r: Self)
        ensures
            r.model_config == model_config,
            r.session_config == session_config,
    {
        Context { model_config, session_config }
    }
}

} // verus!
