//! Tool results and the response envelope of the runtime.

use vstd::prelude::*;
use crate::intent::IntentKind;
use crate::metrics::ResourceMetrics;
use crate::text::owned;

verus! {

/// Outcome of one native tool or MCP call.
#[derive(Debug, Clone, PartialEq, Eq)]
pub struct ToolResult {
    pub success: bool,
    pub output: String,
    pub exit_code: Option<i32>,
    pub resources: Option<ResourceMetrics>,
}

/// What the runtime answers for one intent.
#[derive(Debug, Clone)]
pub struct HandleResponse {
    pub ok: bool,
    pub kind: Option<IntentKind>,
    pub action: Option<String>,
    pub tool_result: Option<ToolResult>,
    pub error: Option<String>,
}

impl HandleResponse {
    pub fn success(kind: IntentKind, tool_result: Option<ToolResult>) -> (r: Self)
        ensures
            r.ok,
            r.kind == Some(kind),
            r.action is None,
            r.tool_result == tool_result,
            r.error is None,
    {
        HandleResponse { ok: true, kind: Some(kind), action: None, tool_result, error: None }
    }

    pub fn core_success(action: &str, tool_result: Option<ToolResult>) -> (r: Self)
        ensures
            r.ok,
            r.kind is None,
            r.action matches Some(a) && a@ == action@,
            r.tool_result == tool_result,
            r.error is None,
    {
        HandleResponse { ok: true, kind: None, action: Some(owned(action)), tool_result, error: None }
    }

    pub fn failure(error: &str) -> (r: Self)
        ensures
            !r.ok,
            r.kind is None,
            r.action is None,
            r.tool_result is None,
            r.error matches Some(e) && e@ == error@,
    {
        HandleResponse { ok: false, kind: None, action: None, tool_result: None, error: Some(owned(error)) }
    }
}

} // verus!
