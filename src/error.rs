//! Failures reported by the domain operations.

use vstd::prelude::*;
use vstd::string::StringExecFns;

verus! {

/// A failure reported by a domain operation, with its detail text.
#[derive(Debug)]
pub enum McpError {
    ComponentNotFound(String),
    ProjectNotFound(String),
    BuildError(String),
    TestError(String),
    DocumentationError(String),
    IoError(String),
    InvalidRequest(String),
    ServerError(String),
}

/// The text that precedes the detail in each kind of failure's message.
pub open spec fn prefix_of(e: McpError) -> Seq<char> {
    match e {
        McpError::ComponentNotFound(_) => "Component not found: "@,
        McpError::ProjectNotFound(_) => "Project not found: "@,
        McpError::BuildError(_) => "Build error: "@,
        McpError::TestError(_) => "Test error: "@,
        McpError::DocumentationError(_) => "Documentation error: "@,
        McpError::IoError(_) => "IO error: "@,
        McpError::InvalidRequest(_) => "Invalid request: "@,
        McpError::ServerError(_) => "Server error: "@,
    }
}

/// The detail text a failure carries.
pub open spec fn detail_of(e: McpError) -> Seq<char> {
    match e {
        McpError::ComponentNotFound(s) => s@,
        McpError::ProjectNotFound(s) => s@,
        McpError::BuildError(s) => s@,
        McpError::TestError(s) => s@,
        McpError::DocumentationError(s) => s@,
        McpError::IoError(s) => s@,
        McpError::InvalidRequest(s) => s@,
        McpError::ServerError(s) => s@,
    }
}

/// The stable application-level code of each kind of failure.
pub open spec fn code_of(e: McpError) -> i64 {
    match e {
        McpError::ComponentNotFound(_) => 1001,
        McpError::ProjectNotFound(_) => 1002,
        McpError::BuildError(_) => 1003,
        McpError::TestError(_) => 1004,
        McpError::DocumentationError(_) => 1005,
        McpError::IoError(_) => 1006,
        McpError::InvalidRequest(_) => 1007,
        McpError::ServerError(_) => 1008,
    }
}

impl McpError {
    /// The HTTP status of the failure: 404 for something not found, 400 for
    /// an invalid request, 500 otherwise.
    pub fn status_code(&self) -> (r: u16)
        ensures
            r == match *self {
                McpError::ComponentNotFound(_) | McpError::ProjectNotFound(_) => 404u16,
                McpError::InvalidRequest(_) => 400u16,
                _ => 500u16,
            },
    {
        match self {
            McpError::ComponentNotFound(_) => 404,
            McpError::ProjectNotFound(_) => 404,
            McpError::InvalidRequest(_) => 400,
            _ => 500,
        }
    }

    /// The stable application-level error code.
    pub fn code(&self) -> (r: i64)
        ensures
            r == code_of(*self),
    {
        match self {
            McpError::ComponentNotFound(_) => 1001,
            McpError::ProjectNotFound(_) => 1002,
            McpError::BuildError(_) => 1003,
            McpError::TestError(_) => 1004,
            McpError::DocumentationError(_) => 1005,
            McpError::IoError(_) => 1006,
            McpError::InvalidRequest(_) => 1007,
            McpError::ServerError(_) => 1008,
        }
    }

    /// The human-readable message: the kind's prefix, then the detail.
    pub fn message(&self) -> (r: String)
        ensures
            r@ == prefix_of(*self) + detail_of(*self),
    {
        let (prefix, detail) = match self {
            McpError::ComponentNotFound(s) => ("Component not found: ", s),
            McpError::ProjectNotFound(s) => ("Project not found: ", s),
            McpError::BuildError(s) => ("Build error: ", s),
            McpError::TestError(s) => ("Test error: ", s),
            McpError::DocumentationError(s) => ("Documentation error: ", s),
            McpError::IoError(s) => ("IO error: ", s),
            McpError::InvalidRequest(s) => ("Invalid request: ", s),
            McpError::ServerError(s) => ("Server error: ", s),
        };
        prefix.to_owned().concat(detail.as_str())
    }
}

} // verus!
