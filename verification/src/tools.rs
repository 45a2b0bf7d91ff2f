//! The built-in tools' decision logic and the fixed tool registry.
//!
//! Executing a tool — running a process, touching the filesystem — belongs
//! to the surrounding application. What lives here is everything a tool
//! decides or renders from plain values: names, model-facing descriptions,
//! input schemas, permission fingerprints, previews and output formatting.

pub mod exec_command;
pub mod list_files;
pub mod read_files;
pub mod write_file;
pub mod registry;
