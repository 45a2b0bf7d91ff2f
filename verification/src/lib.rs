//! Orchestration core of an agentic command-line coding assistant.
//!
//! The library manages a multi-turn conversation between an operator and a
//! remote model service: it keeps the append-only message history, mediates
//! every model-issued tool call through a permission gate, translates the
//! canonical conversation model into two vendor wire formats, and decides
//! retry/backoff for rate-limited requests. All I/O (HTTP, terminal,
//! filesystem) is left to the surrounding application; the functions here are
//! the decisions and translations, each with a verified contract.

pub mod context;
pub mod display;
pub mod errors;
pub mod io;
pub mod jsonutil;
pub mod openai;
pub mod message;
pub mod permissions;
pub mod provider;
pub mod anthropic;
pub mod retry;
pub mod session;
pub mod strutil;
pub mod textdiff;
pub mod tools;
