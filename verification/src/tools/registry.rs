//! The fixed tool registry: the definitions advertised to the model, and
//! their translation into each vendor's tool-definition shape.

use vstd::prelude::*;
use crate::tools::exec_command::ExecCommandTool;
use crate::tools::list_files::ListFilesTool;
use crate::tools::read_files::ReadFilesTool;
use crate::tools::write_file::WriteFileTool;
use crate::tools::{exec_command, list_files, read_files, write_file};

verus! {

/// What the model is told about one tool: its name, its description, and
/// its input schema as JSON text.
#[derive(Debug, Clone, PartialEq, Eq)]
pub struct ToolDef {
    pub name: String,
    pub description: String,
    pub input_schema: String,
}

/// The immutable tool registry a session is built with.
pub struct ToolRegistry {
    tools: Vec<ToolDef>,
}

impl ToolRegistry {
    /// The registered definitions, in registration order.
    pub closed spec fn defs_seq(self) -> Seq<ToolDef> {
        self.tools@
    }

    /// The registry holding the four built-in tools.
    pub fn with_default_tools() -> (r: Self)
        ensures
            r.defs_seq().len() == 4,
            r.defs_seq()[0].name@ == list_files::name_text(),
            r.defs_seq()[0].description@ == list_files::description_text(),
            r.defs_seq()[0].input_schema@ == list_files::schema_text(),
            r.defs_seq()[1].name@ == read_files::name_text(),
            r.defs_seq()[1].description@ == read_files::description_text(),
            r.defs_seq()[1].input_schema@ == read_files::schema_text(),
            r.defs_seq()[2].name@ == write_file::name_text(),
            r.defs_seq()[2].description@ == write_file::description_text(),
            r.defs_seq()[2].input_schema@ == write_file::schema_text(),
            r.defs_seq()[3].name@ == exec_command::name_text(),
            r.defs_seq()[3].description@ == exec_command::description_text(),
            r.defs_seq()[3].input_schema@ == exec_command::schema_text(),
    {
        let lf = ListFilesTool;
        let rf = ReadFilesTool;
        let wf = WriteFileTool;
        let ec = ExecCommandTool;
        let mut tools: Vec<ToolDef> = Vec::new();
        tools.push(
            ToolDef {
                name: lf.name(),
                description: lf.description(),
                input_schema: lf.input_schema(),
            },
        );
        tools.push(
            ToolDef {
                name: rf.name(),
                description: rf.description(),
                input_schema: rf.input_schema(),
            },
        );
        tools.push(
            ToolDef {
                name: wf.name(),
                description: wf.description(),
                input_schema: wf.input_schema(),
            },
        );
        tools.push(
            ToolDef {
                name: ec.name(),
                description: ec.description(),
                input_schema: ec.input_schema(),
            },
        );
        ToolRegistry { tools }
    }

    /// Hands the registered definitions out, in registration order.
    pub fn into_tools(self) -> (r: Vec<ToolDef>)
        ensures
            r@ == self.defs_seq(),
    {
        self.tools
    }

    /// The registered tool names, in registration order, for the session's
    /// lookup of model-issued tool calls.
    pub fn tool_names(&self) -> (r: Vec<String>)
        ensures
            r@.len() == self.defs_seq().len(),
            forall|j: int| 0 <= j < r@.len() ==> #[trigger] r@[j]@ == self.defs_seq()[j].name@,
    {
        let mut names: Vec<String> = Vec::new();
        let mut i: usize = 0;
        while i < self.tools.len()
            invariant
                i <= self.tools@.len(),
                names@.len() == i,
                forall|j: int| 0 <= j < i ==> #[trigger] names@[j]@ == self.tools@[j].name@,
            decreases self.tools@.len() - i,
        {
            names.push(self.tools[i].name.clone());
            i = i + 1;
        }
        names
    }
}

/// Translates the definitions into the Anthropic-style tool shape, in
/// order.
pub fn anthropic_tool_defs(defs: &Vec<ToolDef>) -> (r: Vec<crate::anthropic::Tool>)
    ensures
        r@.len() == defs@.len(),
        forall|j: int|
            0 <= j < r@.len() ==> (#[trigger] r@[j]).name@ == defs@[j].name@ && r@[j].description@
                == defs@[j].description@ && r@[j].input_schema@ == defs@[j].input_schema@,
{
    let mut out: Vec<crate::anthropic::Tool> = Vec::new();
    let mut i: usize = 0;
    while i < defs.len()
        invariant
            i <= defs@.len(),
            out@.len() == i,
            forall|j: int|
                0 <= j < i ==> (#[trigger] out@[j]).name@ == defs@[j].name@ && out@[j].description@
                    == defs@[j].description@ && out@[j].input_schema@ == defs@[j].input_schema@,
        decreases defs@.len() - i,
    {
        let d = &defs[i];
        out.push(
            crate::anthropic::Tool {
                name: d.name.clone(),
                description: d.description.clone(),
                input_schema: d.input_schema.clone(),
            },
        );
        i = i + 1;
    }
    out
}

/// Translates the definitions into the OpenAI-style tool shape, in order;
/// every entry is a function tool.
pub fn openai_tool_defs(defs: &Vec<ToolDef>) -> (r: Vec<crate::openai::Tool>)
    ensures
        r@.len() == defs@.len(),
        forall|j: int|
            0 <= j < r@.len() ==> (#[trigger] r@[j]).tool_type@ == "function"@
                && r@[j].function.name@ == defs@[j].name@ && r@[j].function.description@
                == defs@[j].description@ && r@[j].function.parameters@ == defs@[j].input_schema@,
{
    let mut out: Vec<crate::openai::Tool> = Vec::new();
    let mut i: usize = 0;
    while i < defs.len()
        invariant
            i <= defs@.len(),
            out@.len() == i,
            forall|j: int|
                0 <= j < i ==> (#[trigger] out@[j]).tool_type@ == "function"@
                    && out@[j].function.name@ == defs@[j].name@ && out@[j].function.description@
                    == defs@[j].description@ && out@[j].function.parameters@
                    == defs@[j].input_schema@,
        decreases defs@.len() - i,
    {
        let d = &defs[i];
        out.push(
            crate::openai::Tool {
                tool_type: "function".to_owned(),
                function: crate::openai::Function {
                    name: d.name.clone(),
                    description: d.description.clone(),
                    parameters: d.input_schema.clone(),
                },
            },
        );
        i = i + 1;
    }
    out
}

} // verus!
