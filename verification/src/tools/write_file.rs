//! The file-writing tool: schema, fingerprint, and the line-range edit.
//!
//! Reading and writing the file belongs to the surrounding application; the
//! edit itself — replacing a range of lines with new content — is computed
//! here.

use vstd::prelude::*;
use crate::strutil::{lines_spec, split_lines, string_views, join_with, join_strings};

verus! {

/// The tool's registered name.
pub open spec fn name_text() -> Seq<char> {
    "write_file"@
}

/// The tool's model-facing description.
pub open spec fn description_text() -> Seq<char> {
    "Writes or edits a file."@
}

/// The tool's input schema, as JSON text.
pub open spec fn schema_text() -> Seq<char> {
    "{\"type\":\"object\",\"properties\":{\"path\":{\"type\":\"string\",\"description\":\"Path to the file to be written, relative to the current working directory.\"},\"content\":{\"type\":\"string\",\"description\":\"Content to be written to the file.\"},\"range\":{\"type\":\"object\",\"description\":\"A range of lines to be edited. This is useful if you want to edit a specific part of a file. The entire specified range will be replaced with the new content provided. The new content can be shorter or longer than the original range.\",\"properties\":{\"start\":{\"type\":\"integer\",\"description\":\"The first line of the range; inclusive.\"},\"end\":{\"type\":\"integer\",\"description\":\"The last line of the range; inclusive.\"}},\"required\":[\"start\",\"end\"]}},\"required\":[\"path\",\"content\"]}"@
}

/// The permission fingerprint: writing is fingerprinted as a whole, not per
/// file.
pub open spec fn permission_id_text() -> Seq<char> {
    "write_file"@
}

/// An inclusive, 1-based range of lines to edit.
#[derive(Debug, Clone, Copy, PartialEq, Eq, Structural)]
pub struct Range {
    pub start: usize,
    pub end: usize,
}

/// The file-writing tool.
#[derive(Debug, Clone, Copy, PartialEq, Eq, Structural)]
pub struct WriteFileTool;

/// The tool's parsed arguments.
#[derive(Debug, Clone, PartialEq, Eq)]
pub struct Input {
    pub path: String,
    pub content: String,
    pub range: Option<Range>,
}

/// The lines of a file after replacing the 1-based inclusive range with the
/// new content's lines.
pub open spec fn spliced_lines_spec(
    old_lines: Seq<Seq<char>>,
    range: Range,
    new_lines: Seq<Seq<char>>,
) -> Seq<Seq<char>> {
    old_lines.subrange(0, range.start - 1) + new_lines + old_lines.subrange(
        range.end as int,
        old_lines.len() as int,
    )
}

impl WriteFileTool {
    /// The tool's registered name.
    pub fn name(&self) -> (r: String)
        ensures
            r@ == name_text(),
    {
        "write_file".to_owned()
    }

    /// The tool's model-facing description.
    pub fn description(&self) -> (r: String)
        ensures
            r@ == description_text(),
    {
        "Writes or edits a file.".to_owned()
    }

    /// The tool's input schema, as JSON text.
    pub fn input_schema(&self) -> (r: String)
        ensures
            r@ == schema_text(),
    {
        "{\"type\":\"object\",\"properties\":{\"path\":{\"type\":\"string\",\"description\":\"Path to the file to be written, relative to the current working directory.\"},\"content\":{\"type\":\"string\",\"description\":\"Content to be written to the file.\"},\"range\":{\"type\":\"object\",\"description\":\"A range of lines to be edited. This is useful if you want to edit a specific part of a file. The entire specified range will be replaced with the new content provided. The new content can be shorter or longer than the original range.\",\"properties\":{\"start\":{\"type\":\"integer\",\"description\":\"The first line of the range; inclusive.\"},\"end\":{\"type\":\"integer\",\"description\":\"The last line of the range; inclusive.\"}},\"required\":[\"start\",\"end\"]}},\"required\":[\"path\",\"content\"]}".to_owned()
    }

    /// The permission fingerprint of a call.
    pub fn permission_id(&self, _args: &str) -> (r: String)
        ensures
            r@ == permission_id_text(),
    {
        "write_file".to_owned()
    }
}

/// Replaces a 1-based inclusive range of lines of `full_text` with the
/// lines of `new_content`, joining the result with single line breaks. The
/// range must lie within the text's lines.
pub fn replace_range(full_text: &str, range: &Range, new_content: &str) -> (r: String)
    requires
        1 <= range.start,
        range.start as int <= range.end as int + 1,
        range.end <= lines_spec(full_text@).len(),
    ensures
        r@ == join_with(
            spliced_lines_spec(lines_spec(full_text@), *range, lines_spec(new_content@)),
            '\n',
        ),
{
    let old_lines = split_lines(full_text);
    let new_lines = split_lines(new_content);
    let mut out: Vec<String> = Vec::new();
    let mut i: usize = 0;
    while i < range.start - 1
        invariant
            i <= range.start - 1,
            range.start >= 1,
            range.start - 1 <= old_lines@.len(),
            string_views(old_lines@) == lines_spec(full_text@),
            out@ == old_lines@.subrange(0, i as int),
        decreases range.start - 1 - i,
    {
        out.push(old_lines[i].clone());
        i = i + 1;
        proof {
            assert(out@ =~= old_lines@.subrange(0, i as int));
        }
    }
    let prefix_len = out.len();
    let mut k: usize = 0;
    proof {
        assert(out@ =~= old_lines@.subrange(0, prefix_len as int) + new_lines@.subrange(0, 0));
    }
    while k < new_lines.len()
        invariant
            k <= new_lines@.len(),
            out@ == old_lines@.subrange(0, prefix_len as int) + new_lines@.subrange(0, k as int),
            prefix_len == range.start - 1,
            range.start >= 1,
            prefix_len <= old_lines@.len(),
        decreases new_lines@.len() - k,
    {
        out.push(new_lines[k].clone());
        k = k + 1;
        proof {
            assert(out@ =~= old_lines@.subrange(0, prefix_len as int) + new_lines@.subrange(
                0,
                k as int,
            ));
        }
    }
    let mut j: usize = range.end;
    proof {
        assert(new_lines@.subrange(0, new_lines@.len() as int) =~= new_lines@);
        assert(out@ =~= old_lines@.subrange(0, prefix_len as int) + new_lines@
            + old_lines@.subrange(range.end as int, range.end as int));
    }
    while j < old_lines.len()
        invariant
            range.end <= j <= old_lines@.len(),
            out@ == old_lines@.subrange(0, prefix_len as int) + new_lines@ + old_lines@.subrange(
                range.end as int,
                j as int,
            ),
            prefix_len == range.start - 1,
            range.start >= 1,
            prefix_len <= old_lines@.len(),
        decreases old_lines@.len() - j,
    {
        out.push(old_lines[j].clone());
        j = j + 1;
        proof {
            assert(out@ =~= old_lines@.subrange(0, prefix_len as int) + new_lines@
                + old_lines@.subrange(range.end as int, j as int));
        }
    }
    proof {
        assert(string_views(out@) =~= spliced_lines_spec(
            lines_spec(full_text@),
            *range,
            lines_spec(new_content@),
        ));
    }
    join_strings(&out, '\n')
}

} // verus!
