//! What the command line reports for an intent file and for a response:
//! the exit code and the text for standard output or standard error.

use vstd::prelude::*;
use crate::error::RmngError;
use crate::intent::{CoreIntent, Intent, IntentKind};
use crate::permission::{denial, PermissionGate, PermissionVerdict};
use crate::runtime::{kind_name, rmng_text};
use crate::text::{concat2, concat3, concat4, owned};
use crate::tool::HandleResponse;

verus! {

/// Text for one of the two output streams.
#[derive(Debug, Clone, PartialEq, Eq)]
pub enum Output {
    /// Printed to standard output.
    Stdout(String),
    /// Printed to standard error.
    Stderr(String),
    /// Nothing is printed.
    Silent,
}

/// The action a v2 intent names.
pub open spec fn spec_action_label(intent: CoreIntent) -> Seq<char> {
    match intent {
        CoreIntent::ToolExecute { target, .. } => "tool.execute:"@ + target@,
        CoreIntent::McpProxy { mcp_server, mcp_tool, .. } => "mcp.proxy:"@ + mcp_server@ + "."@ + mcp_tool@,
        CoreIntent::PlanOnly { .. } => "plan.only"@,
    }
}

pub fn action_label(intent: &CoreIntent) -> (r: String)
    ensures
        r@ == spec_action_label(*intent),
{
    match intent {
        CoreIntent::ToolExecute { target, .. } => concat2("tool.execute:", target.as_str()),
        CoreIntent::McpProxy { mcp_server, mcp_tool, .. } => concat4("mcp.proxy:", mcp_server.as_str(), ".", mcp_tool.as_str()),
        CoreIntent::PlanOnly { .. } => owned("plan.only"),
    }
}

/// What checking a v2 intent file reports, given what validation said
/// (`None` when no validator could be built): an invalid intent, then a
/// denied one, fail with exit code 1; an allowed one prints its action.
pub fn evaluate_core_file(intent: &CoreIntent, validation: Option<Result<(), RmngError>>, gate: &PermissionGate) -> (r: (i32, Output))
    requires
        validation matches Some(Err(e)) ==> rmng_text(e) is Some,
    ensures
        validation matches Some(Err(e)) ==> r.0 == 1 && (r.1 matches Output::Stderr(m) && m@ == "INVALID: "@ + rmng_text(e)->Some_0),
        !(validation matches Some(Err(_))) ==> match gate.core_denial(*intent) {
            Some(reason) => r.0 == 1 && (r.1 matches Output::Stderr(m) && m@ == "DENIED: "@ + reason),
            None => r.0 == 0 && (r.1 matches Output::Stdout(m) && m@ == "OK: "@ + spec_action_label(*intent) + " (v2 CoreIntent)"@),
        },
{
    if let Some(Err(e)) = &validation {
        let t = e.message();
        return (1, Output::Stderr(concat2("INVALID: ", t.as_str())));
    }
    match gate.evaluate_core(intent) {
        PermissionVerdict::Allow => {
            let a = action_label(intent);
            (0, Output::Stdout(concat3("OK: ", a.as_str(), " (v2 CoreIntent)")))
        },
        PermissionVerdict::Deny(reason) => (1, Output::Stderr(concat2("DENIED: ", reason.as_str()))),
    }
}

/// The `Debug` name of a v1 kind.
pub fn kind_label(k: IntentKind) -> (r: &'static str)
    ensures
        r@ == kind_name(k),
{
    match k {
        IntentKind::Plan => "Plan",
        IntentKind::ToolRequest => "ToolRequest",
        IntentKind::Clarify => "Clarify",
        IntentKind::Complete => "Complete",
    }
}

/// What checking a v1 intent file reports: its kind when allowed, else the
/// denial.
pub fn evaluate_v1_file(intent: &Intent, gate: &PermissionGate) -> (r: (i32, Output))
    ensures
        match gate.intent_denial(*intent) {
            Some(reason) => r.0 == 1 && (r.1 matches Output::Stderr(m) && m@ == "DENIED: "@ + reason),
            None => r.0 == 0 && (r.1 matches Output::Stdout(m) && m@ == "OK: "@ + kind_name(intent.kind) + " (v1)"@),
        },
{
    match gate.evaluate(intent) {
        PermissionVerdict::Allow => (0, Output::Stdout(concat3("OK: ", kind_label(intent.kind), " (v1)"))),
        PermissionVerdict::Deny(reason) => (1, Output::Stderr(concat2("DENIED: ", reason.as_str()))),
    }
}

/// What a response reports: a tool's output (printed as it is), exiting
/// with the tool's code (1 when it has none) unless both the response and
/// the tool succeeded; else `OK: <kind>` for a success that names a kind;
/// else the error (`unknown error` when there is none) with exit code 1.
pub fn response_outcome(resp: &HandleResponse) -> (r: (i32, Output))
    ensures
        resp.tool_result matches Some(t) ==> (r.1 matches Output::Stdout(m) && m@ == t.output@)
            && r.0 == (if resp.ok && t.success { 0 } else { match t.exit_code { Some(c) => c as int, None => 1 } }),
        resp.tool_result is None && resp.ok ==> r.0 == 0 && match resp.kind {
            Some(k) => (r.1 matches Output::Stdout(m) && m@ == "OK: "@ + kind_name(k)),
            None => r.1 is Silent,
        },
        resp.tool_result is None && !resp.ok ==> r.0 == 1 && (r.1 matches Output::Stderr(m) && m@ == match resp.error {
            Some(e) => e@,
            None => "unknown error"@,
        }),
{
    if let Some(result) = &resp.tool_result {
        let out = Output::Stdout(result.output.clone());
        if !resp.ok || !result.success {
            let code = match result.exit_code {
                Some(c) => c,
                None => 1,
            };
            return (code, out);
        }
        return (0, out);
    }
    if resp.ok {
        return match resp.kind {
            Some(k) => (0, Output::Stdout(concat2("OK: ", kind_label(k)))),
            None => (0, Output::Silent),
        };
    }
    let msg = match &resp.error {
        Some(e) => e.clone(),
        None => owned("unknown error"),
    };
    (1, Output::Stderr(msg))
}

} // verus!
