//! Session store layout, session lifetime rules, and the record that a
//! tool dispatch writes back into a session.

use vstd::prelude::*;
use crate::intent::{spec_metadata, CoreIntent};
use crate::numbers::{parse_unsigned, spec_parse_unsigned};
use crate::paths::{home_path, join, spec_home_path, spec_join};
use crate::seccomp::opt_str_view;
use crate::text::{clone_opt_string, concat2, concat3, owned, str_equal};
use crate::tool::HandleResponse;

verus! {

/// Max bytes stored per tool output in the session's shared context.
pub const MAX_TOOL_OUTPUT_LEN: usize = 4096;

/// Max tool result records retained per session.
pub const MAX_TOOL_RESULTS: usize = 50;

/// Max LLM call records retained per session.
pub const MAX_LLM_CALLS: usize = 100;

/// Default session lifetime in days (`RMNG_SESSION_TTL_DAYS` overrides it).
pub const DEFAULT_SESSION_TTL_DAYS: u32 = 90;

/// Sessions stored as `<root>/<id>.json`.
#[derive(Debug, Clone)]
pub struct SessionStore {
    root: String,
}

impl SessionStore {
    pub closed spec fn spec_root(&self) -> Seq<char> {
        self.root@
    }

    pub fn new(root: &str) -> (r: Self)
        ensures
            r.spec_root() == root@,
    {
        SessionStore { root: owned(root) }
    }

    pub fn root(&self) -> (r: &str)
        ensures
            r@ == self.spec_root(),
    {
        self.root.as_str()
    }

    /// The file of session `id`.
    pub fn path_for(&self, id: &str) -> (r: String)
        ensures
            r@ == spec_join(self.spec_root(), id@ + ".json"@),
    {
        let file = concat2(id, ".json");
        join(self.root.as_str(), file.as_str())
    }

    /// The store under a home directory: `$HOME/.rmng/sessions`, or the
    /// relative `.rmng/sessions` when `HOME` is unset.
    pub fn sessions_root_for(home: Option<&str>) -> (r: String)
        ensures
            r@ == spec_home_path(opt_str_view(home), ".rmng/sessions"@, ".rmng/sessions"@),
    {
        home_path(home, ".rmng/sessions", ".rmng/sessions")
    }
}

/// Session lifetime from the value of `RMNG_SESSION_TTL_DAYS`: unset or
/// unreadable gives the default; `0` disables expiry.
pub open spec fn spec_ttl_days(raw: Option<Seq<char>>) -> Option<u32> {
    match raw {
        None => Some(DEFAULT_SESSION_TTL_DAYS),
        Some(s) => match spec_parse_unsigned(s, u32::MAX as nat) {
            None => Some(DEFAULT_SESSION_TTL_DAYS),
            Some(d) => if d == 0 { None } else { Some(d as u32) },
        },
    }
}

pub fn session_ttl_days_from(raw: Option<&str>) -> (r: Option<u32>)
    ensures
        r == spec_ttl_days(opt_str_view(raw)),
{
    match raw {
        None => Some(DEFAULT_SESSION_TTL_DAYS),
        Some(s) => match parse_unsigned(s, u32::MAX as u64) {
            None => Some(DEFAULT_SESSION_TTL_DAYS),
            Some(d) => if d == 0 { None } else { Some(d as u32) },
        },
    }
}

/// Lifecycle status from the hours since the last update: under one hour
/// `active`, under a week `idle`, otherwise `stale`.
pub open spec fn spec_lifecycle_for_hours(hours: int) -> Seq<char> {
    if hours < 1 {
        "active"@
    } else if hours < 24 * 7 {
        "idle"@
    } else {
        "stale"@
    }
}

pub fn lifecycle_status_for_hours(hours: i64) -> (r: &'static str)
    ensures
        r@ == spec_lifecycle_for_hours(hours as int),
{
    if hours < 1 {
        "active"
    } else if hours < 24 * 7 {
        "idle"
    } else {
        "stale"
    }
}

/// The label shown for a status: a lifecycle status stands for itself,
/// anything else is shown as `open`.
pub open spec fn spec_lifecycle_label(status: Seq<char>) -> Seq<char> {
    if status == "active"@ || status == "idle"@ || status == "stale"@ {
        status
    } else {
        "open"@
    }
}

pub fn lifecycle_label(status: &str) -> (r: &str)
    ensures
        r@ == spec_lifecycle_label(status@),
{
    if str_equal(status, "active") || str_equal(status, "idle") || str_equal(status, "stale") {
        status
    } else {
        "open"
    }
}

/// Appends `item` and keeps the newest `max` items.
pub fn push_bounded<T>(v: &mut Vec<T>, item: T, max: usize)
    ensures
        final(v)@ == crate::agent_session::last_n(old(v)@.push(item), max as nat),
{
    v.push(item);
    retain_last(v, max);
}

/// Keeps only the newest `max` items (the oldest are dropped from the front).
pub fn retain_last<T>(v: &mut Vec<T>, max: usize)
    ensures
        old(v)@.len() <= max ==> final(v)@ == old(v)@,
        old(v)@.len() > max ==> final(v)@ == old(v)@.subrange(old(v)@.len() - max, old(v)@.len() as int),
{
    let ghost orig = v@;
    let ghost mut start: int = 0;
    while v.len() > max
        invariant
            0 <= start <= orig.len(),
            v@ == orig.subrange(start, orig.len() as int),
            orig.len() <= max ==> start == 0,
            orig.len() > max ==> v@.len() >= max,
        decreases v@.len(),
    {
        let ghost before = v@;
        v.remove(0);
        proof {
            start = start + 1;
            assert(v@ =~= orig.subrange(start, orig.len() as int));
        }
    }
    proof {
        if orig.len() <= max {
            assert(v@ =~= orig);
        }
    }
}

/// A tool or MCP dispatch result as stored in a session.
#[derive(Debug, Clone, PartialEq)]
pub struct ToolResultRecord {
    /// Milliseconds since the Unix epoch, UTC.
    pub timestamp_ms: i64,
    pub tool: String,
    pub parameters: serde_json::Value,
    pub output: String,
    pub success: bool,
    pub exit_code: Option<i32>,
    pub handoff_from: Option<String>,
    pub peak_rss_kb: Option<u64>,
    pub cpu_time_ms: Option<u64>,
    pub runtime_ms: Option<u64>,
}

impl ToolResultRecord {
    /// A field-by-field copy.
    pub fn duplicate(&self) -> (r: Self)
        ensures
            r == *self,
    {
        ToolResultRecord {
            timestamp_ms: self.timestamp_ms,
            tool: self.tool.clone(),
            parameters: self.parameters.clone(),
            output: self.output.clone(),
            success: self.success,
            exit_code: self.exit_code,
            handoff_from: clone_opt_string(&self.handoff_from),
            peak_rss_kb: self.peak_rss_kb,
            cpu_time_ms: self.cpu_time_ms,
            runtime_ms: self.runtime_ms,
        }
    }
}

/// An element-wise copy of a list of records.
pub fn copy_records(v: &Vec<ToolResultRecord>) -> (r: Vec<ToolResultRecord>)
    ensures
        r@ == v@,
{
    let mut r: Vec<ToolResultRecord> = Vec::new();
    let mut i: usize = 0;
    while i < v.len()
        invariant
            i <= v.len(),
            r@ == v@.subrange(0, i as int),
        decreases v.len() - i,
    {
        r.push(v[i].duplicate());
        i = i + 1;
        proof {
            assert(r@ =~= v@.subrange(0, i as int));
        }
    }
    proof {
        assert(v@.subrange(0, i as int) =~= v@);
    }
    r
}

/// Outputs longer than `MAX_TOOL_OUTPUT_LEN` characters keep their first
/// `MAX_TOOL_OUTPUT_LEN` characters and get a `...(truncated)` line.
pub open spec fn stored_output(o: Seq<char>) -> Seq<char> {
    if o.len() > MAX_TOOL_OUTPUT_LEN {
        o.take(MAX_TOOL_OUTPUT_LEN as int) + "\n...(truncated)"@
    } else {
        o
    }
}

/// All fields of the record for a dispatched intent, except its time:
/// plan-only intents give no record; tool name and parameters come from
/// the intent (`server.tool` for MCP calls); output and outcome come from
/// the tool result, else from the response's action (`ok` when none) or
/// error (`unknown error` when none).
pub open spec fn record_matches(intent: CoreIntent, resp: HandleResponse, rec: Option<ToolResultRecord>) -> bool {
    match intent {
        CoreIntent::PlanOnly { .. } => rec is None,
        _ => rec matches Some(r) && {
            &&& match intent {
                CoreIntent::ToolExecute { target, parameters, .. } => r.tool@ == target@ && r.parameters == parameters,
                CoreIntent::McpProxy { mcp_server, mcp_tool, mcp_args, .. } => r.tool@ == mcp_server@ + "."@ + mcp_tool@
                    && r.parameters == mcp_args,
                _ => false,
            }
            &&& r.handoff_from == match spec_metadata(intent) {
                Some(m) => m.handoff_from,
                None => None,
            }
            &&& match resp.tool_result {
                Some(t) => {
                    &&& r.output@ == stored_output(t.output@)
                    &&& r.success == (resp.ok && t.success)
                    &&& r.exit_code == t.exit_code
                    &&& r.peak_rss_kb == match t.resources { Some(m) => m.peak_rss_kb, None => None }
                    &&& r.cpu_time_ms == match t.resources { Some(m) => m.cpu_time_ms, None => None }
                    &&& r.runtime_ms == match t.resources { Some(m) => m.runtime_ms, None => None }
                },
                None => {
                    &&& r.output@ == if resp.ok {
                        match resp.action { Some(a) => a@, None => "ok"@ }
                    } else {
                        match resp.error { Some(e) => e@, None => "unknown error"@ }
                    }
                    &&& r.success == resp.ok
                    &&& r.exit_code is None
                    &&& r.peak_rss_kb is None
                    &&& r.cpu_time_ms is None
                    &&& r.runtime_ms is None
                },
            }
        },
    }
}

fn stored_output_of(o: &str) -> (r: String)
    ensures
        r@ == stored_output(o@),
{
    if o.unicode_len() > MAX_TOOL_OUTPUT_LEN {
        let head = o.substring_char(0, MAX_TOOL_OUTPUT_LEN);
        concat2(head, "\n...(truncated)")
    } else {
        owned(o)
    }
}

/// The current time in milliseconds since the Unix epoch
/// (`SystemTime::now().duration_since(UNIX_EPOCH)`), or none when the
/// clock reads a time before the epoch or too far after it for an `i64`.
/// It depends on the clock, so nothing is promised of it.
#[verifier::external_body]
pub(crate) fn now_unix_millis() -> Option<i64> {
    let d = std::time::SystemTime::now().duration_since(std::time::UNIX_EPOCH).ok()?;
    i64::try_from(d.as_millis()).ok()
}

/// The record for a dispatched intent, stamped with `timestamp_ms`.
pub fn build_tool_result_record_at(intent: &CoreIntent, resp: &HandleResponse, timestamp_ms: i64) -> (r: Option<ToolResultRecord>)
    ensures
        record_matches(*intent, *resp, r),
        r matches Some(rec) ==> rec.timestamp_ms == timestamp_ms,
{
    let (tool, parameters) = match intent {
        CoreIntent::ToolExecute { target, parameters, .. } => (owned(target.as_str()), parameters.clone()),
        CoreIntent::McpProxy { mcp_server, mcp_tool, mcp_args, .. } => (
            concat3(mcp_server.as_str(), ".", mcp_tool.as_str()),
            mcp_args.clone(),
        ),
        CoreIntent::PlanOnly { .. } => return None,
    };
    let handoff_from = match intent.metadata() {
        Some(m) => clone_opt_string(&m.handoff_from),
        None => None,
    };
    let rec = match &resp.tool_result {
        Some(result) => {
            let output = stored_output_of(result.output.as_str());
            let (peak_rss_kb, cpu_time_ms, runtime_ms) = match result.resources {
                Some(m) => (m.peak_rss_kb, m.cpu_time_ms, m.runtime_ms),
                None => (None, None, None),
            };
            ToolResultRecord {
                timestamp_ms,
                tool,
                parameters,
                output,
                success: resp.ok && result.success,
                exit_code: result.exit_code,
                handoff_from,
                peak_rss_kb,
                cpu_time_ms,
                runtime_ms,
            }
        },
        None => {
            let output = if resp.ok {
                match &resp.action {
                    Some(a) => owned(a.as_str()),
                    None => owned("ok"),
                }
            } else {
                match &resp.error {
                    Some(e) => owned(e.as_str()),
                    None => owned("unknown error"),
                }
            };
            ToolResultRecord {
                timestamp_ms,
                tool,
                parameters,
                output,
                success: resp.ok,
                exit_code: None,
                handoff_from,
                peak_rss_kb: None,
                cpu_time_ms: None,
                runtime_ms: None,
            }
        },
    };
    Some(rec)
}

/// The record for a dispatched intent, stamped with the current time (the
/// epoch itself, `0`, when the clock cannot be read).
pub fn build_tool_result_record(intent: &CoreIntent, resp: &HandleResponse) -> (r: Option<ToolResultRecord>)
    ensures
        record_matches(*intent, *resp, r),
{
    let now = match now_unix_millis() {
        Some(t) => t,
        None => 0,
    };
    build_tool_result_record_at(intent, resp, now)
}

/// Only executable intents leave a record, and its output never exceeds the
/// stored bound by more than the truncation marker.
pub proof fn law_plans_leave_no_record(intent: CoreIntent, resp: HandleResponse, rec: Option<ToolResultRecord>)
    requires
        record_matches(intent, resp, rec),
    ensures
        rec is None <==> intent is PlanOnly,
{
}

/// Why a session could not be loaded or saved.
#[derive(Debug)]
pub enum SessionError {
    NotFound(String),
    Expired(String),
    Io(std::io::Error),
    Parse(serde_json::Error),
}

impl SessionError {
    /// The human-readable message of the error (what its `Display` shows).
    pub fn message(&self) -> (r: String)
        ensures
            self matches SessionError::NotFound(id) ==> r@ == "session not found: "@ + id@,
            self matches SessionError::Expired(id) ==> r@ == "session expired (TTL): "@ + id@,
            self matches SessionError::Io(_) ==> exists|t: Seq<char>| r@ == "io error: "@ + t,
            self matches SessionError::Parse(e) ==> r@ == "parse error: "@ + crate::error::json_error_display(*e),
    {
        match self {
            SessionError::NotFound(id) => concat2("session not found: ", id.as_str()),
            SessionError::Expired(id) => concat2("session expired (TTL): ", id.as_str()),
            SessionError::Io(e) => {
                let t = crate::error::io_error_text(e);
                let r = concat2("io error: ", t.as_str());
                assert(r@ == "io error: "@ + t@);
                r
            },
            SessionError::Parse(e) => {
                let t = crate::error::json_error_text(e);
                concat2("parse error: ", t.as_str())
            },
        }
    }
}

/// How a session is loaded.
#[derive(Debug, Clone, Copy)]
pub struct SessionLoadOptions {
    /// Reject (and delete) sessions older than the TTL.
    pub enforce_ttl: bool,
}

impl Default for SessionLoadOptions {
    fn default() -> (r: Self)
        ensures
            r.enforce_ttl,
    {
        SessionLoadOptions { enforce_ttl: true }
    }
}

/// With the TTL enforced and set, a session not updated within it is expired.
pub open spec fn ttl_rejects(updated_at_ms: i64, options: SessionLoadOptions, ttl_days: Option<u32>, now_ms: i64) -> bool {
    options.enforce_ttl && match ttl_days {
        Some(d) => updated_at_ms < now_ms - d * 86_400_000,
        None => false,
    }
}

impl SessionStore {
    /// The decision on a session just read from disk: with the TTL enforced
    /// and set, a session not updated within it is expired (the caller
    /// deletes its file); any other gets its lifecycle status refreshed.
    pub fn accept_loaded(
        &self,
        id: &str,
        session: crate::agent_session::AgentSession,
        options: SessionLoadOptions,
        ttl_days: Option<u32>,
        now_ms: i64,
    ) -> (r: Result<crate::agent_session::AgentSession, SessionError>)
        ensures
            ttl_rejects(session.updated_at_ms, options, ttl_days, now_ms)
                ==> (r matches Err(SessionError::Expired(x)) && x@ == id@),
            !ttl_rejects(session.updated_at_ms, options, ttl_days, now_ms)
                ==> (r matches Ok(s) && s.task_state.status@ == spec_lifecycle_for_hours(crate::agent_session::whole_hours(session.updated_at_ms, now_ms))
                    && s.id == session.id && s.updated_at_ms == session.updated_at_ms
                    && s.task_state.current_prompt == session.task_state.current_prompt
                    && s.active_agents == session.active_agents
                    && s.shared_context == session.shared_context
                    && s.handoff_history == session.handoff_history),
    {
        if options.enforce_ttl {
            if let Some(d) = ttl_days {
                if session.expired(d, now_ms) {
                    return Err(SessionError::Expired(owned(id)));
                }
            }
        }
        let mut s = session;
        s.refresh_lifecycle(now_ms);
        Ok(s)
    }
}

} // verus!
