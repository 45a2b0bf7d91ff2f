//! The file-reading tool: schema, fingerprint, line sampling and entry
//! rendering.
//!
//! Reading the files belongs to the surrounding application; it hands each
//! file's text in here, and these functions slice the requested line window
//! and render the per-file blocks.

use vstd::prelude::*;
use crate::strutil::{push_chars, string_from_chars, lines_spec, split_lines, string_views,
    join_with, join_strings};

verus! {

/// The tool's registered name.
pub open spec fn name_text() -> Seq<char> {
    "read_files"@
}

/// The tool's model-facing description.
pub open spec fn description_text() -> Seq<char> {
    "Read files. The paths must be relative to the the current working directory. Each file will be read and returned as a string. Optionally, you can provide a limit and offset for the lines to be read. This is generally a good idea when you want to get a quick sense of what a file contains while preserving some space in your context.\nNever read a file without having first validated that the path exist; especially if the user has given you a filename in their message.\n\nAlways prefer reading multiple files at once, rather than calling this tool multiple times, provided that you know which files you want to read. Doing so is more efficient."@
}

/// The tool's input schema, as JSON text.
pub open spec fn schema_text() -> Seq<char> {
    "{\"type\":\"object\",\"properties\":{\"paths\":{\"type\":\"array\",\"items\":{\"type\":\"string\"},\"description\":\"Paths to the files to be read, relative to the current working directory.\"},\"limit\":{\"type\":\"integer\",\"minimum\":0,\"description\":\"Number of lines to read from each file. If not provided, the entire file will be read.\"},\"offset\":{\"type\":\"integer\",\"minimum\":0,\"description\":\"Number of lines to skip from the beginning of each file. If not provided, reading will start at the beginning.\"}},\"required\":[\"paths\"]}"@
}

/// The permission fingerprint: reading is fingerprinted as a whole, not per
/// file.
pub open spec fn permission_id_text() -> Seq<char> {
    "read_files"@
}

/// The window of lines a read request selects: `offset` lines are skipped,
/// then up to `limit` lines are taken, never past the end.
pub open spec fn sampled_lines_spec(
    lines: Seq<Seq<char>>,
    limit: Option<usize>,
    offset: Option<usize>,
) -> Seq<Seq<char>> {
    let off = match offset {
        Option::Some(o) => o as int,
        Option::None => 0,
    };
    let lim = match limit {
        Option::Some(l) => l as int,
        Option::None => lines.len() as int,
    };
    let take = if lim < lines.len() - off {
        lim
    } else {
        lines.len() - off
    };
    lines.subrange(off, off + take)
}

/// The file-reading tool.
#[derive(Debug, Clone, Copy, PartialEq, Eq, Structural)]
pub struct ReadFilesTool;

/// The tool's parsed arguments.
#[derive(Debug, Clone, PartialEq, Eq)]
pub struct Input {
    pub paths: Vec<String>,
    pub limit: Option<usize>,
    pub offset: Option<usize>,
}

impl ReadFilesTool {
    /// The tool's registered name.
    pub fn name(&self) -> (r: String)
        ensures
            r@ == name_text(),
    {
        "read_files".to_owned()
    }

    /// The tool's model-facing description.
    pub fn description(&self) -> (r: String)
        ensures
            r@ == description_text(),
    {
        "Read files. The paths must be relative to the the current working directory. Each file will be read and returned as a string. Optionally, you can provide a limit and offset for the lines to be read. This is generally a good idea when you want to get a quick sense of what a file contains while preserving some space in your context.\nNever read a file without having first validated that the path exist; especially if the user has given you a filename in their message.\n\nAlways prefer reading multiple files at once, rather than calling this tool multiple times, provided that you know which files you want to read. Doing so is more efficient.".to_owned()
    }

    /// The tool's input schema, as JSON text.
    pub fn input_schema(&self) -> (r: String)
        ensures
            r@ == schema_text(),
    {
        "{\"type\":\"object\",\"properties\":{\"paths\":{\"type\":\"array\",\"items\":{\"type\":\"string\"},\"description\":\"Paths to the files to be read, relative to the current working directory.\"},\"limit\":{\"type\":\"integer\",\"minimum\":0,\"description\":\"Number of lines to read from each file. If not provided, the entire file will be read.\"},\"offset\":{\"type\":\"integer\",\"minimum\":0,\"description\":\"Number of lines to skip from the beginning of each file. If not provided, reading will start at the beginning.\"}},\"required\":[\"paths\"]}".to_owned()
    }

    /// The permission fingerprint of a call.
    pub fn permission_id(&self, _args: &str) -> (r: String)
        ensures
            r@ == permission_id_text(),
    {
        "read_files".to_owned()
    }

    /// Slices the requested line window out of one file's text. The offset
    /// must not run past the file's last line.
    pub fn sample_lines(&self, data: &str, limit: &Option<usize>, offset: &Option<usize>) -> (r:
        String)
        requires
            match *offset {
                Option::Some(o) => o <= lines_spec(data@).len(),
                Option::None => true,
            },
        ensures
            r@ == join_with(sampled_lines_spec(lines_spec(data@), *limit, *offset), '\n'),
    {
        let lines = split_lines(data);
        let total: usize = lines.len();
        let off: usize = match offset {
            Option::Some(o) => *o,
            Option::None => 0,
        };
        let lim: usize = match limit {
            Option::Some(l) => *l,
            Option::None => lines.len(),
        };
        let take: usize = if lim < lines.len() - off {
            lim
        } else {
            lines.len() - off
        };
        let mut window: Vec<String> = Vec::new();
        let mut i: usize = 0;
        while i < take
            invariant
                i <= take,
                off + take <= total,
                total == lines@.len(),
                window@ == lines@.subrange(off as int, off as int + i as int),
            decreases take - i,
        {
            window.push(lines[off + i].clone());
            i = i + 1;
            proof {
                assert(window@ =~= lines@.subrange(off as int, off as int + i as int));
            }
        }
        proof {
            assert(string_views(window@) =~= sampled_lines_spec(lines_spec(data@), *limit, *offset));
        }
        join_strings(&window, '\n')
    }

    /// Renders the block for one successfully read file.
    pub fn format_entry(&self, path_display: &str, data: &str) -> (r: String)
        ensures
            r@ == "<path>\n"@ + path_display@ + "\n</path>\n<data>\n"@ + data@ + "\n</data>\n"@,
    {
        let mut v: Vec<char> = Vec::new();
        push_chars(&mut v, "<path>\n");
        push_chars(&mut v, path_display);
        push_chars(&mut v, "\n</path>\n<data>\n");
        push_chars(&mut v, data);
        push_chars(&mut v, "\n</data>\n");
        string_from_chars(&v)
    }

    /// Renders the block for a file that could not be read.
    pub fn format_error_entry(&self, path_display: &str, error_text: &str) -> (r: String)
        ensures
            r@ == "<path>\n"@ + path_display@ + "\n</path>\n<error>\n"@ + error_text@
                + "\n</error>\n"@,
    {
        let mut v: Vec<char> = Vec::new();
        push_chars(&mut v, "<path>\n");
        push_chars(&mut v, path_display);
        push_chars(&mut v, "\n</path>\n<error>\n");
        push_chars(&mut v, error_text);
        push_chars(&mut v, "\n</error>\n");
        string_from_chars(&v)
    }
}

} // verus!
