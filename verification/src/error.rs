//! Error types of the runtime and of the MCP bridge.

use vstd::prelude::*;
use crate::text::{concat2, owned};

verus! {

#[verifier::external_type_specification]
#[verifier::external_body]
pub struct ExJsonError(serde_json::Error);

#[verifier::external_type_specification]
#[verifier::external_body]
pub struct ExIoError(std::io::Error);

/// Errors surfaced by intent handling and tool dispatch.
#[derive(Debug)]
pub enum RmngError {
    InvalidIntent(String),
    PermissionDenied(String),
    ToolFailed(String),
    Ipc(String),
    Serde(serde_json::Error),
}

/// Errors of one MCP subprocess call.
#[derive(Debug)]
pub enum McpError {
    Spawn(String),
    Io(std::io::Error),
    Protocol(String),
    Tool(String),
    Timeout(String),
}

/// The `Display` text of a `serde_json::Error` (its message, with the line
/// and column where it has them); it depends on the error alone.
pub uninterp spec fn json_error_display(e: serde_json::Error) -> Seq<char>;

/// `serde_json::Error`'s `Display` text.
#[verifier::external_body]
pub(crate) fn json_error_text(e: &serde_json::Error) -> (r: String)
    ensures
        r@ == json_error_display(*e),
{
    e.to_string()
}

/// `std::io::Error`'s `Display` text.
#[verifier::external_body]
pub(crate) fn io_error_text(e: &std::io::Error) -> String {
    e.to_string()
}

impl RmngError {
    /// The human-readable message of the error (what its `Display` shows).
    pub fn message(&self) -> (r: String)
        ensures
            self matches RmngError::InvalidIntent(m) ==> r@ == "invalid intent: "@ + m@,
            self matches RmngError::PermissionDenied(m) ==> r@ == "permission denied: "@ + m@,
            self matches RmngError::ToolFailed(m) ==> r@ == "tool execution failed: "@ + m@,
            self matches RmngError::Ipc(m) ==> r@ == "ipc error: "@ + m@,
            self matches RmngError::Serde(e) ==> r@ == "serialization error: "@ + json_error_display(*e),
    {
        match self {
            RmngError::InvalidIntent(m) => concat2("invalid intent: ", m.as_str()),
            RmngError::PermissionDenied(m) => concat2("permission denied: ", m.as_str()),
            RmngError::ToolFailed(m) => concat2("tool execution failed: ", m.as_str()),
            RmngError::Ipc(m) => concat2("ipc error: ", m.as_str()),
            RmngError::Serde(e) => {
                let t = json_error_text(e);
                concat2("serialization error: ", t.as_str())
            },
        }
    }
}

impl McpError {
    /// The human-readable message of the error (what its `Display` shows).
    pub fn message(&self) -> (r: String)
        ensures
            self matches McpError::Spawn(m) ==> r@ == "spawn failed: "@ + m@,
            self matches McpError::Protocol(m) ==> r@ == "protocol error: "@ + m@,
            self matches McpError::Tool(m) ==> r@ == "tool error: "@ + m@,
            self matches McpError::Timeout(m) ==> r@ == "timeout: "@ + m@,
            self matches McpError::Io(_) ==> exists|t: Seq<char>| r@ == "io error: "@ + t,
    {
        match self {
            McpError::Spawn(m) => concat2("spawn failed: ", m.as_str()),
            McpError::Io(e) => {
                let t = io_error_text(e);
                let r = concat2("io error: ", t.as_str());
                assert(r@ == "io error: "@ + t@);
                r
            },
            McpError::Protocol(m) => concat2("protocol error: ", m.as_str()),
            McpError::Tool(m) => concat2("tool error: ", m.as_str()),
            McpError::Timeout(m) => concat2("timeout: ", m.as_str()),
        }
    }
}

/// Builds an `InvalidIntent` error from a message.
pub fn invalid_intent(m: &str) -> (r: RmngError)
    ensures
        r matches RmngError::InvalidIntent(x) && x@ == m@,
{
    RmngError::InvalidIntent(owned(m))
}

} // verus!
