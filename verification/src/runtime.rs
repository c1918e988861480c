//! The decisions of the runtime that answers intents. Handling an intent
//! alternates decisions with outside work (running a native tool, calling
//! an MCP server, writing the audit log): each decision is a function from
//! the intent and what the outside work returned to the next step.

use vstd::prelude::*;
use crate::json::json_model;
use crate::audit::{AuditLog, AuditTrack};
use crate::error::{McpError, RmngError};
use crate::intent::{spec_metadata, CoreIntent, Intent, IntentKind};
use crate::permission::{PermissionGate, PermissionVerdict};
use crate::text::{clone_opt_string, clone_strings, concat2, concat4, opt_view, owned};
use crate::tool::{HandleResponse, ToolResult};
use crate::validator::{unknown_tool_message, IntentValidator};

verus! {

/// The audit record of one handled intent, before the time, the duration
/// and (for a v2 intent) the intent id are stamped on it. A v2 record takes
/// its id from the trace id when that parses as a UUID, else a fresh one.
#[derive(Debug)]
pub struct AuditDraft {
    pub intent_id: Option<uuid::Uuid>,
    pub trace_id: Option<String>,
    pub skill_name: Option<String>,
    pub track: Option<AuditTrack>,
    pub mcp_server: Option<String>,
    pub action: String,
    pub outcome: String,
    pub detail: Option<String>,
}

/// The 128-bit value `uuid::Uuid::parse_str` reads from a text, or none
/// when the text is not a UUID; it depends on the text alone.
pub uninterp spec fn uuid_parse(text: Seq<char>) -> Option<u128>;

/// `Uuid::parse_str`, the UUID given as its 128-bit value (`as_u128`).
#[verifier::external_body]
fn parse_uuid_value(text: &str) -> (r: Option<u128>)
    ensures
        r == uuid_parse(text@),
{
    uuid::Uuid::parse_str(text).ok().map(|u| u.as_u128())
}

/// Which id an audit record gets.
#[derive(Debug, Clone, Copy)]
pub enum AuditIdChoice {
    /// The intent's own id.
    Given(uuid::Uuid),
    /// The trace id, which is a UUID (its 128-bit value).
    FromTrace(u128),
    /// Neither: a fresh random id.
    Fresh,
}

/// The id of the audit record for a draft: the intent's id, else the trace
/// id when it is a UUID, else a fresh one.
pub fn audit_id_choice(draft: &AuditDraft) -> (r: AuditIdChoice)
    ensures
        draft.intent_id matches Some(u) ==> r == AuditIdChoice::Given(u),
        draft.intent_id is None ==> match draft.trace_id {
            Some(t) => match uuid_parse(t@) {
                Some(n) => r == AuditIdChoice::FromTrace(n),
                None => r == AuditIdChoice::Fresh,
            },
            None => r == AuditIdChoice::Fresh,
        },
{
    match draft.intent_id {
        Some(u) => AuditIdChoice::Given(u),
        None => match &draft.trace_id {
            Some(t) => match parse_uuid_value(t.as_str()) {
                Some(n) => AuditIdChoice::FromTrace(n),
                None => AuditIdChoice::Fresh,
            },
            None => AuditIdChoice::Fresh,
        },
    }
}

/// What the runtime does next for an intent.
#[derive(Debug)]
pub enum Step {
    /// Write the audit record, then answer with the response.
    Respond(HandleResponse, AuditDraft),
    /// Run the native tool; its result is handed to the matching `finish_*`.
    RunNative { tool: String, parameters: serde_json::Value },
    /// Call the MCP server; its output is handed to `finish_mcp`.
    RunMcp { command: String, args: Vec<String>, tool: String, arguments: serde_json::Value },
    /// Fail the request without an answer or an audit record.
    Fail(RmngError),
}

/// The failure response carrying `msg`.
pub open spec fn is_failure(r: HandleResponse, msg: Seq<char>) -> bool {
    &&& !r.ok
    &&& r.kind is None
    &&& r.action is None
    &&& r.tool_result is None
    &&& opt_view(r.error) == Some(msg)
}

/// The v2 success response with `action` and `result`.
pub open spec fn is_core_success(r: HandleResponse, action: Seq<char>, result: ToolResult) -> bool {
    &&& r.ok
    &&& r.kind is None
    &&& opt_view(r.action) == Some(action)
    &&& r.tool_result == Some(result)
    &&& r.error is None
}

/// The text an error shows, where it holds no outside error.
pub open spec fn rmng_text(e: RmngError) -> Option<Seq<char>> {
    match e {
        RmngError::InvalidIntent(m) => Some("invalid intent: "@ + m@),
        RmngError::PermissionDenied(m) => Some("permission denied: "@ + m@),
        RmngError::ToolFailed(m) => Some("tool execution failed: "@ + m@),
        RmngError::Ipc(m) => Some("ipc error: "@ + m@),
        RmngError::Serde(_) => None,
    }
}

/// The text an MCP error shows, where it holds no outside error.
pub open spec fn mcp_text(e: McpError) -> Option<Seq<char>> {
    match e {
        McpError::Spawn(m) => Some("spawn failed: "@ + m@),
        McpError::Protocol(m) => Some("protocol error: "@ + m@),
        McpError::Tool(m) => Some("tool error: "@ + m@),
        McpError::Timeout(m) => Some("timeout: "@ + m@),
        McpError::Io(_) => None,
    }
}

/// The `Debug` name of a v1 kind.
pub open spec fn kind_name(k: IntentKind) -> Seq<char> {
    match k {
        IntentKind::Plan => "Plan"@,
        IntentKind::ToolRequest => "ToolRequest"@,
        IntentKind::Clarify => "Clarify"@,
        IntentKind::Complete => "Complete"@,
    }
}

/// The audit record of a v1 intent: the intent's own id, no trace, skill or
/// server, and the summary as detail unless another is given.
pub open spec fn is_v1_draft(d: AuditDraft, intent: Intent, action: Seq<char>, outcome: Seq<char>, track: Option<AuditTrack>, detail: Option<Seq<char>>) -> bool {
    &&& d.intent_id == Some(intent.intent_id)
    &&& d.trace_id is None
    &&& d.skill_name is None
    &&& d.mcp_server is None
    &&& d.track == track
    &&& d.action@ == action
    &&& d.outcome@ == outcome
    &&& opt_view(d.detail) == (if detail is Some { detail } else { Some(intent.summary@) })
}

/// The detail a v2 record carries when no other is given.
pub open spec fn core_detail(intent: CoreIntent) -> Seq<char> {
    match intent {
        CoreIntent::PlanOnly { reasoning, .. } => reasoning@,
        CoreIntent::ToolExecute { target, .. } => "target="@ + target@,
        CoreIntent::McpProxy { mcp_server, mcp_tool, .. } => mcp_server@ + "."@ + mcp_tool@,
    }
}

/// The audit record of a v2 intent: trace id and skill from its metadata,
/// the server of a proxy call, and the default detail unless another is given.
pub open spec fn is_core_draft(d: AuditDraft, intent: CoreIntent, action: Seq<char>, outcome: Seq<char>, track: Option<AuditTrack>, detail: Option<Seq<char>>) -> bool {
    &&& d.intent_id is None
    &&& opt_view(d.trace_id) == (match spec_metadata(intent) { Some(m) => opt_view(m.trace_id), None => None })
    &&& opt_view(d.skill_name) == (match spec_metadata(intent) { Some(m) => opt_view(m.skill_name), None => None })
    &&& opt_view(d.mcp_server) == (match intent { CoreIntent::McpProxy { mcp_server, .. } => Some(mcp_server@), _ => None })
    &&& d.track == track
    &&& d.action@ == action
    &&& d.outcome@ == outcome
    &&& opt_view(d.detail) == (if detail is Some { detail } else { Some(core_detail(intent)) })
}

/// The step for a v1 intent, given what validating its tool's parameters
/// said (`None` when they are valid).
pub open spec fn is_v1_step(s: Step, gate: PermissionGate, intent: Intent, validation: Option<Seq<char>>) -> bool {
    match gate.intent_denial(intent) {
        Some(reason) => s matches Step::Respond(resp, d) && is_failure(resp, reason)
            && is_v1_draft(d, intent, "deny"@, "deny"@, None, Some(reason)),
        None => match intent.kind {
            IntentKind::ToolRequest => match intent.tool {
                None => s matches Step::Fail(RmngError::InvalidIntent(m)) && m@ == "missing tool"@,
                Some(t) => match validation {
                    Some(msg) => s matches Step::Respond(resp, d) && is_failure(resp, msg)
                        && is_v1_draft(d, intent, t.name@, "invalid"@, Some(AuditTrack::Native), Some(msg)),
                    None => s matches Step::RunNative { tool, parameters } && tool@ == t.name@ && parameters == t.args,
                },
            },
            k => s matches Step::Respond(resp, d) && resp.ok && resp.kind == Some(k) && resp.action is None
                && resp.tool_result is None && resp.error is None
                && is_v1_draft(d, intent, kind_name(k), "ok"@, Some(AuditTrack::Plan), None),
        },
    }
}

/// The step for a v2 intent, given what validating it said (`None` when
/// it is valid).
pub open spec fn is_core_step(s: Step, gate: PermissionGate, intent: CoreIntent, validation: Option<Seq<char>>) -> bool {
    match validation {
        Some(msg) => s matches Step::Respond(resp, d) && is_failure(resp, msg)
            && is_core_draft(d, intent, "validate"@, "invalid"@, None, Some(msg)),
        None => match gate.core_denial(intent) {
            Some(reason) => s matches Step::Respond(resp, d) && is_failure(resp, reason)
                && is_core_draft(d, intent, "deny"@, "deny"@, None, Some(reason)),
            None => match intent {
                CoreIntent::PlanOnly { reasoning, .. } => s matches Step::Respond(resp, d)
                    && is_core_success(resp, "plan.only"@, ToolResult { success: true, output: reasoning, exit_code: Some(0), resources: None })
                    && is_core_draft(d, intent, "plan.only"@, "ok"@, Some(AuditTrack::Plan), None),
                CoreIntent::ToolExecute { target, parameters, .. } => s matches Step::RunNative { tool, parameters: p }
                    && tool@ == target@ && p == parameters,
                CoreIntent::McpProxy { mcp_server, mcp_tool, mcp_args, .. } => s matches Step::RunMcp { command, args, tool, arguments }
                    && gate.spec_mcp_allowlist().lookup(mcp_server@) matches Some(c)
                    && command@ == c.command@ && args@ == c.args@ && tool@ == mcp_tool@ && arguments == mcp_args,
            },
        },
    }
}

fn v1_draft(intent: &Intent, action: &str, outcome: &str, track: Option<AuditTrack>, detail: Option<String>) -> (d: AuditDraft)
    ensures
        is_v1_draft(d, *intent, action@, outcome@, track, opt_view(detail)),
{
    let detail = match detail {
        Some(x) => Some(x),
        None => Some(intent.summary.clone()),
    };
    AuditDraft {
        intent_id: Some(intent.intent_id.clone()),
        trace_id: None,
        skill_name: None,
        track,
        mcp_server: None,
        action: owned(action),
        outcome: owned(outcome),
        detail,
    }
}

fn core_draft(intent: &CoreIntent, action: &str, outcome: &str, track: Option<AuditTrack>, detail: Option<String>) -> (d: AuditDraft)
    ensures
        is_core_draft(d, *intent, action@, outcome@, track, opt_view(detail)),
{
    let (trace_id, skill_name) = match intent.metadata() {
        Some(m) => (clone_opt_string(&m.trace_id), clone_opt_string(&m.skill_name)),
        None => (None, None),
    };
    let mcp_server = match intent {
        CoreIntent::McpProxy { mcp_server, .. } => Some(mcp_server.clone()),
        _ => None,
    };
    let detail = match detail {
        Some(x) => Some(x),
        None => match intent {
            CoreIntent::PlanOnly { reasoning, .. } => Some(reasoning.clone()),
            CoreIntent::ToolExecute { target, .. } => Some(concat2("target=", target.as_str())),
            CoreIntent::McpProxy { mcp_server, mcp_tool, .. } => {
                Some(concat4(mcp_server.as_str(), ".", mcp_tool.as_str(), ""))
            },
        },
    };
    proof {
        reveal_strlit("target=");
        reveal_strlit(".");
        reveal_strlit("");
        assert(core_detail(*intent) == core_detail(*intent));
        if intent is McpProxy {
            assert(intent->mcp_server@ + "."@ + intent->mcp_tool@ + ""@ =~= intent->mcp_server@ + "."@ + intent->mcp_tool@);
        }
    }
    AuditDraft {
        intent_id: None,
        trace_id,
        skill_name,
        track,
        mcp_server,
        action: owned(action),
        outcome: owned(outcome),
        detail,
    }
}

/// Permission gate, audit log and validator of the runtime.
pub struct Runtime {
    gate: PermissionGate,
    audit: AuditLog,
    validator: IntentValidator,
}

impl Runtime {
    pub closed spec fn spec_gate(&self) -> PermissionGate {
        self.gate
    }

    pub closed spec fn spec_audit(&self) -> AuditLog {
        self.audit
    }

    pub closed spec fn spec_validator(&self) -> IntentValidator {
        self.validator
    }

    pub fn new(gate: PermissionGate, audit: AuditLog, validator: IntentValidator) -> (r: Self)
        ensures
            r.spec_gate() == gate,
            r.spec_audit() == audit,
            r.spec_validator() == validator,
    {
        Runtime { gate, audit, validator }
    }

    pub fn validator(&self) -> (r: &IntentValidator)
        ensures
            *r == self.spec_validator(),
    {
        &self.validator
    }

    pub fn gate(&self) -> (r: &PermissionGate)
        ensures
            *r == self.spec_gate(),
    {
        &self.gate
    }

    pub fn audit(&self) -> (r: &AuditLog)
        ensures
            *r == self.spec_audit(),
    {
        &self.audit
    }

    /// The step for a v1 intent once its tool's parameters were validated
    /// (`validation` is what the validator answered; it is not consulted
    /// for intents that run no tool).
    pub fn plan_v1(&self, intent: &Intent, validation: Result<(), RmngError>) -> (s: Step)
        requires
            validation is Ok || validation matches Err(RmngError::InvalidIntent(_)),
        ensures
            is_v1_step(s, self.spec_gate(), *intent, match validation {
                Ok(_) => None,
                Err(e) => rmng_text(e),
            }),
    {
        match self.gate.evaluate(intent) {
            PermissionVerdict::Deny(reason) => {
                proof {
                    reveal_strlit("deny");
                }
                let d = v1_draft(intent, "deny", "deny", None, Some(reason.clone()));
                return Step::Respond(HandleResponse::failure(reason.as_str()), d);
            },
            PermissionVerdict::Allow => {},
        }
        match intent.kind {
            IntentKind::Plan | IntentKind::Clarify | IntentKind::Complete => {
                let name = match intent.kind {
                    IntentKind::Plan => "Plan",
                    IntentKind::Clarify => "Clarify",
                    IntentKind::Complete => "Complete",
                    IntentKind::ToolRequest => "ToolRequest",
                };
                proof {
                    reveal_strlit("Plan");
                    reveal_strlit("Clarify");
                    reveal_strlit("Complete");
                    reveal_strlit("ToolRequest");
                    reveal_strlit("ok");
                }
                let d = v1_draft(intent, name, "ok", Some(AuditTrack::Plan), None);
                Step::Respond(HandleResponse::success(intent.kind, None), d)
            },
            IntentKind::ToolRequest => {
                let tool = match &intent.tool {
                    Some(t) => t,
                    None => {
                        proof {
                            reveal_strlit("missing tool");
                        }
                        return Step::Fail(RmngError::InvalidIntent(owned("missing tool")));
                    },
                };
                match validation {
                    Err(e) => {
                        let msg = e.message();
                        proof {
                            reveal_strlit("invalid");
                        }
                        let d = v1_draft(intent, tool.name.as_str(), "invalid", Some(AuditTrack::Native), Some(msg.clone()));
                        Step::Respond(HandleResponse::failure(msg.as_str()), d)
                    },
                    Ok(()) => Step::RunNative { tool: tool.name.clone(), parameters: tool.args.clone() },
                }
            },
        }
    }

    /// The first step for a v1 intent: the permission check, then the
    /// validation of its tool's parameters.
    pub fn begin_v1(&self, intent: &Intent) -> (s: Step)
        ensures
            exists|v: Option<Seq<char>>| #[trigger] is_v1_step(s, self.spec_gate(), *intent, v),
            intent.tool is Some && self.spec_validator().spec_registry().spec_tool(intent.tool->Some_0.name@) is None
                ==> is_v1_step(s, self.spec_gate(), *intent, Some("invalid intent: "@ + unknown_tool_message(intent.tool->Some_0.name@))),
    {
        let needs_tool = match (&intent.kind, &intent.tool) {
            (IntentKind::ToolRequest, Some(_)) => true,
            _ => false,
        };
        let validation = if needs_tool && matches!(self.gate.evaluate(intent), PermissionVerdict::Allow) {
            match &intent.tool {
                Some(t) => self.validator.validate_tool_parameters(t.name.as_str(), &t.args),
                None => Ok(()),
            }
        } else {
            Ok(())
        };
        let s = self.plan_v1(intent, validation);
        s
    }

    /// The answer for a v1 native tool call once the tool ran.
    pub fn finish_v1_native(&self, intent: &Intent, result: ToolResult) -> (r: (HandleResponse, AuditDraft))
        requires
            intent.tool is Some,
        ensures
            r.0.ok,
            r.0.kind == Some(intent.kind),
            r.0.action is None,
            r.0.tool_result == Some(result),
            r.0.error is None,
            is_v1_draft(r.1, *intent, intent.tool->Some_0.name@, if result.success { "ok"@ } else { "fail"@ }, Some(AuditTrack::Native), None),
    {
        proof {
            reveal_strlit("ok");
            reveal_strlit("fail");
        }
        let outcome = if result.success { "ok" } else { "fail" };
        let name = match &intent.tool {
            Some(t) => t.name.as_str(),
            None => "",
        };
        let d = v1_draft(intent, name, outcome, Some(AuditTrack::Native), None);
        (HandleResponse::success(intent.kind, Some(result)), d)
    }

    /// The step for a v2 intent once it was validated (`validation` is what
    /// the validator answered).
    pub fn plan_core(&self, intent: &CoreIntent, validation: Result<(), RmngError>) -> (s: Step)
        requires
            validation is Ok || validation matches Err(RmngError::InvalidIntent(_)),
        ensures
            is_core_step(s, self.spec_gate(), *intent, match validation {
                Ok(_) => None,
                Err(e) => rmng_text(e),
            }),
    {
        proof {
            reveal_strlit("validate");
            reveal_strlit("invalid");
            reveal_strlit("deny");
            reveal_strlit("plan.only");
            reveal_strlit("ok");
        }
        if let Err(e) = validation {
            let msg = e.message();
            let d = core_draft(intent, "validate", "invalid", None, Some(msg.clone()));
            return Step::Respond(HandleResponse::failure(msg.as_str()), d);
        }
        match self.gate.evaluate_core(intent) {
            PermissionVerdict::Deny(reason) => {
                let d = core_draft(intent, "deny", "deny", None, Some(reason.clone()));
                return Step::Respond(HandleResponse::failure(reason.as_str()), d);
            },
            PermissionVerdict::Allow => {},
        }
        match intent {
            CoreIntent::PlanOnly { reasoning, .. } => {
                let d = core_draft(intent, "plan.only", "ok", Some(AuditTrack::Plan), None);
                let result = ToolResult { success: true, output: reasoning.clone(), exit_code: Some(0), resources: None };
                Step::Respond(HandleResponse::core_success("plan.only", Some(result)), d)
            },
            CoreIntent::ToolExecute { target, parameters, .. } => {
                Step::RunNative { tool: target.clone(), parameters: parameters.clone() }
            },
            CoreIntent::McpProxy { mcp_server, mcp_tool, mcp_args, .. } => {
                match self.gate.mcp_server_config(mcp_server.as_str()) {
                    Some(cfg) => Step::RunMcp {
                        command: cfg.command.clone(),
                        args: clone_strings(&cfg.args),
                        tool: mcp_tool.clone(),
                        arguments: mcp_args.clone(),
                    },
                    None => Step::Fail(RmngError::PermissionDenied(concat2("mcp server not available: ", mcp_server.as_str()))),
                }
            },
        }
    }

    /// The first step for a v2 intent given its JSON form: validation, then
    /// the permission check.
    pub fn begin_core(&self, intent: &CoreIntent, envelope: &serde_json::Value) -> (s: Step)
        ensures
            is_core_step(s, self.spec_gate(), *intent,
                match self.spec_validator().spec_validate(*intent, json_model(*envelope)) {
                    Some(m) => Some("invalid intent: "@ + m),
                    None => None,
                }),
    {
        let validation = self.validator.validate(intent, envelope);
        self.plan_core(intent, validation)
    }

    /// The answer for a v2 native tool call once the tool ran.
    pub fn finish_core_native(&self, intent: &CoreIntent, result: ToolResult) -> (r: (HandleResponse, AuditDraft))
        requires
            intent is ToolExecute,
        ensures
            is_core_success(r.0, "tool.execute"@, result),
            is_core_draft(r.1, *intent, intent->target@, if result.success { "ok"@ } else { "fail"@ }, Some(AuditTrack::Native), None),
    {
        proof {
            reveal_strlit("ok");
            reveal_strlit("fail");
            reveal_strlit("tool.execute");
        }
        let outcome = if result.success { "ok" } else { "fail" };
        let target = match intent {
            CoreIntent::ToolExecute { target, .. } => target.as_str(),
            _ => "",
        };
        let d = core_draft(intent, target, outcome, Some(AuditTrack::Native), None);
        (HandleResponse::core_success("tool.execute", Some(result)), d)
    }

    /// The answer for a v2 proxy call once the MCP server answered: its
    /// text output, or the call's error as a tool failure.
    pub fn finish_mcp(&self, intent: &CoreIntent, call: Result<String, McpError>) -> (r: Result<(HandleResponse, AuditDraft), RmngError>)
        requires
            intent is McpProxy,
        ensures
            call is Err <==> r is Err,
            call matches Err(e) ==> r matches Err(RmngError::ToolFailed(m)) && (mcp_text(e) matches Some(t) ==> m@ == t),
            call matches Ok(out) ==> r matches Ok((resp, d)) && {
                &&& is_core_success(resp, "mcp.proxy"@, ToolResult { success: true, output: out, exit_code: Some(0), resources: None })
                &&& is_core_draft(d, *intent, "mcp.proxy:"@ + intent->mcp_server@ + "."@ + intent->mcp_tool@, "ok"@, Some(AuditTrack::Mcp), None)
            },
    {
        proof {
            reveal_strlit("mcp.proxy:");
            reveal_strlit(".");
            reveal_strlit("ok");
            reveal_strlit("mcp.proxy");
        }
        match call {
            Err(e) => Err(RmngError::ToolFailed(e.message())),
            Ok(output) => {
                let action = match intent {
                    CoreIntent::McpProxy { mcp_server, mcp_tool, .. } => concat4("mcp.proxy:", mcp_server.as_str(), ".", mcp_tool.as_str()),
                    _ => owned(""),
                };
                let d = core_draft(intent, action.as_str(), "ok", Some(AuditTrack::Mcp), None);
                let result = ToolResult { success: true, output, exit_code: Some(0), resources: None };
                Ok((HandleResponse::core_success("mcp.proxy", Some(result)), d))
            },
        }
    }
}

/// Nothing runs for a v2 intent that failed validation or that the permission check
/// denies: a step that runs a tool or calls an MCP server comes only from a
/// valid, allowed intent, and a proxy call goes to an enabled server that
/// lists the tool.
pub proof fn law_core_runs_only_when_allowed(s: Step, gate: PermissionGate, intent: CoreIntent, validation: Option<Seq<char>>)
    requires
        is_core_step(s, gate, intent, validation),
        s is RunNative || s is RunMcp,
    ensures
        validation is None,
        gate.core_denial(intent) is None,
        s matches Step::RunNative { tool, .. } ==> intent matches CoreIntent::ToolExecute { target, .. } && tool@ == target@,
        s matches Step::RunMcp { tool, .. } ==> intent matches CoreIntent::McpProxy { mcp_server, mcp_tool, .. }
            && tool@ == mcp_tool@ && gate.spec_mcp_allowlist().spec_tool_allowed(mcp_server@, mcp_tool@),
{
}

/// Nothing runs for a v1 intent that the permission check denies or whose parameters
/// failed validation; what runs is the tool the intent names.
pub proof fn law_v1_runs_only_when_allowed(s: Step, gate: PermissionGate, intent: Intent, validation: Option<Seq<char>>)
    requires
        is_v1_step(s, gate, intent, validation),
        s is RunNative,
    ensures
        validation is None,
        gate.intent_denial(intent) is None,
        intent.kind is ToolRequest,
        intent.tool matches Some(t) && s->RunNative_tool@ == t.name@ && crate::text::names_contain(gate.spec_allowed_tools(), t.name@),
{
}

/// A denied intent is answered with a failure that carries the permission check's
/// reason, and the audit record says `deny`.
pub proof fn law_denial_is_answered(s: Step, gate: PermissionGate, intent: CoreIntent, reason: Seq<char>)
    requires
        is_core_step(s, gate, intent, None),
        gate.core_denial(intent) == Some(reason),
    ensures
        s matches Step::Respond(resp, d) && is_failure(resp, reason) && d.outcome@ == "deny"@,
{
}

} // verus!
