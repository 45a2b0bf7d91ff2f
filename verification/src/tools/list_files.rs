//! The directory-listing tool: fingerprint, schema, and the rendering of
//! the entries a directory walk produced.
//!
//! Walking the filesystem and consulting ignore rules belongs to the
//! surrounding application; it hands the surviving entries in here, in walk
//! order, and these functions render them.

use vstd::prelude::*;
use crate::strutil::{push_chars, push_char_seq, string_from_chars, repeat_seq, repeat_str};

verus! {

/// The tool's registered name.
pub open spec fn name_text() -> Seq<char> {
    "list_files_tool"@
}

/// The tool's model-facing description.
pub open spec fn description_text() -> Seq<char> {
    "List files in a directory. The directory must be a path relative to the the current working directory. If an empty path is provided, the current working directory will be used. When recursive is true, recursively lists all files and directories in a tree format. Hidden files (starting with '.') are excluded by default unless include_hidden is true. IMPORTANT: Only use include_hidden=true when you have a strong reason to examine hidden files, such as debugging configuration issues or when explicitly asked by the user."@
}

/// The tool's input schema, as JSON text.
pub open spec fn schema_text() -> Seq<char> {
    "{\"type\":\"object\",\"properties\":{\"path\":{\"type\":\"string\",\"description\":\"Path to the directory, relative to the current working directory. If an empty path is provided, the current working directory will be used.\"},\"recursive\":{\"type\":\"boolean\",\"description\":\"When true, recursively lists all files and directories in a tree format. Defaults to false.\"},\"include_hidden\":{\"type\":\"boolean\",\"description\":\"When true, includes hidden files and directories (starting with '.'). Defaults to false. IMPORTANT: Only use this when you have a strong reason to examine hidden files, such as debugging configuration issues or when explicitly asked by the user.\"}},\"required\":[\"path\"]}"@
}

/// The permission fingerprint: listing is fingerprinted as a whole, not per
/// directory.
pub open spec fn permission_id_text() -> Seq<char> {
    "list_files"@
}

/// Mathematical model of a [`ListingEntry`].
pub struct ListingEntryView {
    pub path: Seq<char>,
    pub depth: nat,
    pub is_dir: bool,
}

/// One entry a directory walk produced: its display path, its depth below
/// the listed directory (zero for a flat listing), and whether it is a
/// directory.
#[derive(Debug, Clone, PartialEq, Eq)]
pub struct ListingEntry {
    pub path: String,
    pub depth: usize,
    pub is_dir: bool,
}

impl View for ListingEntry {
    type V = ListingEntryView;

    open spec fn view(&self) -> ListingEntryView {
        ListingEntryView { path: self.path@, depth: self.depth as nat, is_dir: self.is_dir }
    }
}

/// The rendered line of one entry, newline included: two spaces of indent
/// per level, the display path, and a directory marker.
pub open spec fn listing_line_spec(e: ListingEntryView) -> Seq<char> {
    repeat_seq("  "@, e.depth) + (if e.is_dir {
        e.path + "/ (directory)\n"@
    } else {
        e.path + "\n"@
    })
}

/// The whole rendered listing, in walk order.
pub open spec fn listing_spec(es: Seq<ListingEntryView>) -> Seq<char>
    decreases es.len(),
{
    if es.len() == 0 {
        Seq::<char>::empty()
    } else {
        listing_spec(es.drop_last()) + listing_line_spec(es.last())
    }
}

/// The views of a vector of listing entries.
pub open spec fn listing_views(v: Seq<ListingEntry>) -> Seq<ListingEntryView> {
    v.map_values(|e: ListingEntry| e@)
}

/// The directory-listing tool.
#[derive(Debug, Clone, Copy, PartialEq, Eq, Structural)]
pub struct ListFilesTool;

/// The tool's parsed arguments.
#[derive(Debug, Clone, PartialEq, Eq)]
pub struct Input {
    pub path: String,
    pub recursive: bool,
    pub include_hidden: bool,
}

impl ListFilesTool {
    /// The tool's registered name.
    pub fn name(&self) -> (r: String)
        ensures
            r@ == name_text(),
    {
        "list_files_tool".to_owned()
    }

    /// The tool's model-facing description.
    pub fn description(&self) -> (r: String)
        ensures
            r@ == description_text(),
    {
        "List files in a directory. The directory must be a path relative to the the current working directory. If an empty path is provided, the current working directory will be used. When recursive is true, recursively lists all files and directories in a tree format. Hidden files (starting with '.') are excluded by default unless include_hidden is true. IMPORTANT: Only use include_hidden=true when you have a strong reason to examine hidden files, such as debugging configuration issues or when explicitly asked by the user.".to_owned()
    }

    /// The tool's input schema, as JSON text.
    pub fn input_schema(&self) -> (r: String)
        ensures
            r@ == schema_text(),
    {
        "{\"type\":\"object\",\"properties\":{\"path\":{\"type\":\"string\",\"description\":\"Path to the directory, relative to the current working directory. If an empty path is provided, the current working directory will be used.\"},\"recursive\":{\"type\":\"boolean\",\"description\":\"When true, recursively lists all files and directories in a tree format. Defaults to false.\"},\"include_hidden\":{\"type\":\"boolean\",\"description\":\"When true, includes hidden files and directories (starting with '.'). Defaults to false. IMPORTANT: Only use this when you have a strong reason to examine hidden files, such as debugging configuration issues or when explicitly asked by the user.\"}},\"required\":[\"path\"]}".to_owned()
    }

    /// The permission fingerprint of a call.
    pub fn permission_id(&self, _args: &str) -> (r: String)
        ensures
            r@ == permission_id_text(),
    {
        "list_files".to_owned()
    }

    /// Renders the listing from the entries the walk produced, in walk
    /// order.
    pub fn format_listing(&self, entries: &Vec<ListingEntry>) -> (r: String)
        ensures
            r@ == listing_spec(listing_views(entries@)),
    {
        let mut v: Vec<char> = Vec::new();
        let mut i: usize = 0;
        proof {
            assert(listing_views(entries@.subrange(0, 0)) =~= Seq::<ListingEntryView>::empty());
        }
        while i < entries.len()
            invariant
                i <= entries@.len(),
                v@ == listing_spec(listing_views(entries@.subrange(0, i as int))),
            decreases entries@.len() - i,
        {
            let ghost pre = listing_views(entries@.subrange(0, i as int));
            let ghost post = listing_views(entries@.subrange(0, i as int + 1));
            proof {
                assert(post =~= pre.push(entries@[i as int]@));
                assert(post.drop_last() =~= pre);
            }
            let e = &entries[i];
            let indent = repeat_str("  ", e.depth);
            push_char_seq(&mut v, &indent);
            push_chars(&mut v, e.path.as_str());
            if e.is_dir {
                push_chars(&mut v, "/ (directory)\n");
            } else {
                push_chars(&mut v, "\n");
            }
            i = i + 1;
            proof {
                assert(v@ =~= listing_spec(post));
            }
        }
        proof {
            assert(entries@.subrange(0, entries@.len() as int) =~= entries@);
        }
        string_from_chars(&v)
    }
}

} // verus!
