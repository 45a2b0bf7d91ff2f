//! Typed failure categories shared by every component.

use vstd::prelude::*;

verus! {

/// Construction-time configuration failures.
#[derive(Debug, Clone, PartialEq, Eq)]
pub enum ConfigError {
    Missing { reason: String },
    Invalid { reason: String },
    ReadFailed { reason: String },
}

/// Failures of a model provider call.
#[derive(Debug, Clone, PartialEq, Eq)]
pub enum ModelError {
    Authentication { reason: String },
    RateLimit { reason: String, retry_after_seconds: Option<u64> },
    Request { reason: String },
    Network { reason: String },
}

/// Failures of a tool lookup or invocation.
#[derive(Debug, Clone, PartialEq, Eq)]
pub enum ToolError {
    NotFound { reason: String },
    InvalidArguments { reason: String },
    ExecutionFailed { reason: String },
}

/// Failures of session management itself.
#[derive(Debug, Clone, PartialEq, Eq)]
pub enum SessionError {
    Processing { reason: String },
    UserInput { reason: String },
}

/// Error payload of a vendor error response body.
#[derive(Debug, Clone, PartialEq, Eq)]
pub struct ApiError {
    pub message: String,
    pub error_type: String,
    pub code: Option<String>,
}

/// Wrapper object in which vendors return an [`ApiError`].
#[derive(Debug, Clone, PartialEq, Eq)]
pub struct ErrorResponse {
    pub error: ApiError,
}

} // verus!
