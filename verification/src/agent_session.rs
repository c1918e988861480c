//! A persistent multi-agent session: active agents per layer, shared
//! context, task state, handoff history, and the text it contributes to
//! the prompts of the nervous system. Times are milliseconds since the Unix
//! epoch, UTC; the caller passes the current time in.

use vstd::prelude::*;
use crate::json::{as_array_of, json_array, json_as_array, json_models, json_compact, json_compact_text, json_count, json_empty_object, json_model, json_object_insert, json_text, json_u64, JsonModel};
use crate::keyed::{put_value, remove_key, value_of, value_under};
use crate::session::{copy_records, lifecycle_label, lifecycle_status_for_hours, retain_last, spec_lifecycle_for_hours, spec_lifecycle_label, ToolResultRecord, MAX_TOOL_RESULTS};
use crate::text::{concat2, concat3, concat4, join_with, joined, opt_view, owned, str_equal, views};

verus! {

/// Milliseconds in an hour and in a day.
pub const MS_PER_HOUR: i64 = 3_600_000;
pub const MS_PER_DAY: i64 = 86_400_000;

/// The agent active on a layer.
#[derive(Debug, Clone, PartialEq, Eq)]
pub struct ActiveAgentSlot {
    pub agent_id: String,
    pub layer: String,
    pub activated_at_ms: i64,
}

/// Status and current task of a session.
#[derive(Debug, Clone, PartialEq, Eq)]
pub struct TaskState {
    pub status: String,
    pub current_prompt: Option<String>,
    pub notes: Vec<String>,
}

/// One handoff between agents.
#[derive(Debug, Clone, PartialEq, Eq)]
pub struct HandoffRecord {
    pub timestamp_ms: i64,
    pub from_agent: String,
    pub from_layer: String,
    pub to_agent: String,
    pub to_layer: String,
    pub reason: String,
    pub prompt: Option<String>,
}

/// A value of the shared context: JSON, or the list of tool results that
/// dispatches recorded (the value under `tool_results`).
#[derive(Debug, Clone)]
pub enum ContextValue {
    Json(serde_json::Value),
    ToolResults(Vec<ToolResultRecord>),
}

/// A persistent multi-agent session. The per-agent LLM call records of a
/// session are kept beside it by the caller, since they hold costs in
/// floating point.
#[derive(Debug, Clone)]
pub struct AgentSession {
    pub id: String,
    pub created_at_ms: i64,
    pub updated_at_ms: i64,
    /// Active agent per layer key.
    pub active_agents: Vec<(String, ActiveAgentSlot)>,
    /// Shared context per key.
    pub shared_context: Vec<(String, ContextValue)>,
    pub task_state: TaskState,
    pub handoff_history: Vec<HandoffRecord>,
}

/// The key of the recorded tool results in the shared context.
pub open spec fn tool_results_key() -> Seq<char> {
    "tool_results"@
}

/// The key of the orchestration state in the shared context.
pub open spec fn orchestration_key() -> Seq<char> {
    "orchestration"@
}

/// The last `max` items (all of them when there are fewer).
pub open spec fn last_n<T>(v: Seq<T>, max: nat) -> Seq<T> {
    if v.len() <= max {
        v
    } else {
        v.subrange(v.len() - max, v.len() as int)
    }
}

/// At most the first 500 characters.
pub open spec fn preview(o: Seq<char>) -> Seq<char> {
    if o.len() <= 500 {
        o
    } else {
        o.subrange(0, 500)
    }
}

/// The summary line of one tool result.
pub open spec fn result_line(r: ToolResultRecord) -> Seq<char> {
    "- "@ + r.tool@ + " ["@ + (if r.success { "ok"@ } else { "failed"@ }) + "]: "@ + preview(r.output@)
}

/// The text shown when no tool result was recorded.
pub open spec fn no_results_text() -> Seq<char> {
    "(no prior tool results)"@
}

/// The summary of the last `max` recorded tool results, one line each.
pub open spec fn spec_results_summary(shared: Seq<(String, ContextValue)>, max: nat) -> Seq<char> {
    match value_of(shared, tool_results_key()) {
        Some(ContextValue::ToolResults(list)) => if list@.len() == 0 {
            no_results_text()
        } else {
            joined(last_n(list@, max).map_values(|r: ToolResultRecord| result_line(r)), "\n"@)
        },
        _ => no_results_text(),
    }
}

/// The line of one handoff.
pub open spec fn handoff_line(h: HandoffRecord) -> Seq<char> {
    "- "@ + h.from_agent@ + " ("@ + h.from_layer@ + ") \u{2192} "@ + h.to_agent@ + " ("@ + h.to_layer@ + "): "@ + h.reason@
}

/// The entry of one active agent.
pub open spec fn agent_entry(e: (String, ActiveAgentSlot)) -> Seq<char> {
    e.0@ + ": "@ + e.1.agent_id@
}

/// The lines of the prompt context, given the JSON text of the shared
/// context other than tool results (`None` when there is none) and of the
/// orchestration state (`None` when there is none).
pub open spec fn prompt_parts(s: AgentSession, context_text: Option<Seq<char>>, orchestration_text: Option<Seq<char>>) -> Seq<Seq<char>> {
    let p0 = seq!["session_id: "@ + s.id@, "lifecycle: "@ + spec_lifecycle_label(s.task_state.status@)];
    let p1 = match s.task_state.current_prompt {
        Some(p) => p0.push("current_task: "@ + p@),
        None => p0,
    };
    let summary = spec_results_summary(s.shared_context@, 5);
    let p2 = if summary != no_results_text() { p1.push("recent_tool_results:\n"@ + summary) } else { p1 };
    let p3 = match context_text {
        Some(t) => p2.push("shared_context:\n"@ + t),
        None => p2,
    };
    let p4 = match orchestration_text {
        Some(t) => p3.push("orchestration_chain: "@ + t),
        None => p3,
    };
    let p5 = if s.handoff_history@.len() > 0 {
        p4.push("recent_handoffs:\n"@ + joined(last_n(s.handoff_history@, 5).map_values(|h: HandoffRecord| handoff_line(h)), "\n"@))
    } else {
        p4
    };
    if s.active_agents@.len() > 0 {
        p5.push("active_agents: "@ + joined(s.active_agents@.map_values(|e: (String, ActiveAgentSlot)| agent_entry(e)), ", "@))
    } else {
        p5
    }
}

/// Whole hours from `from_ms` to `to_ms`, rounded toward zero.
pub open spec fn whole_hours(from_ms: i64, to_ms: i64) -> int {
    let d = to_ms - from_ms;
    if d >= 0 {
        d / 3_600_000
    } else {
        -((-d) / 3_600_000)
    }
}

/// `serde_json::to_string_pretty` of a JSON object: its indented text.
pub uninterp spec fn json_pretty_object_text(o: Map<Seq<char>, JsonModel>) -> Seq<char>;

/// The object the entries make, a later entry replacing an earlier one of
/// the same name.
pub open spec fn entries_map(entries: Seq<(String, serde_json::Value)>) -> Map<Seq<char>, JsonModel>
    decreases entries.len(),
{
    if entries.len() == 0 {
        Map::empty()
    } else {
        entries_map(entries.drop_last()).insert(entries.last().0@, json_model(entries.last().1))
    }
}

/// The JSON entries of a shared context other than the tool results, in
/// order.
pub open spec fn other_entries(shared: Seq<(String, ContextValue)>) -> Seq<(String, serde_json::Value)>
    decreases shared.len(),
{
    if shared.len() == 0 {
        Seq::empty()
    } else {
        let rest = other_entries(shared.drop_last());
        let (k, v) = shared.last();
        if k@ != tool_results_key() && v is Json {
            rest.push((k, v->Json_0))
        } else {
            rest
        }
    }
}

/// `serde_json::to_string_pretty` of the object the entries make (collected
/// into a `serde_json::Map`, which keeps the last entry of each name).
/// Serializing a map of values cannot fail, so the fallback `{}` is never
/// taken.
#[verifier::external_body]
fn context_json_pretty(entries: &Vec<(String, serde_json::Value)>) -> (r: String)
    ensures
        r@ == json_pretty_object_text(entries_map(entries@)),
{
    let map: serde_json::Map<String, serde_json::Value> = entries.iter().cloned().collect();
    serde_json::to_string_pretty(&map).unwrap_or_else(|_| "{}".to_string())
}

fn tool_line(r: &ToolResultRecord) -> (s: String)
    ensures
        s@ == result_line(*r),
{
    let n = r.output.as_str().unicode_len();
    let cut: usize = if n <= 500 { n } else { 500 };
    let pre = r.output.as_str().substring_char(0, cut);
    proof {
        reveal_strlit("- ");
        reveal_strlit(" [");
        reveal_strlit("ok");
        reveal_strlit("failed");
        reveal_strlit("]: ");
        if n <= 500 {
            assert(pre@ =~= r.output@);
        }
    }
    let status = if r.success { "ok" } else { "failed" };
    let a = concat4("- ", r.tool.as_str(), " [", status);
    concat3(a.as_str(), "]: ", pre)
}

fn handoff_text(h: &HandoffRecord) -> (s: String)
    ensures
        s@ == handoff_line(*h),
{
    let a = concat4("- ", h.from_agent.as_str(), " (", h.from_layer.as_str());
    let b = concat4(a.as_str(), ") \u{2192} ", h.to_agent.as_str(), " (");
    let c = concat4(b.as_str(), h.to_layer.as_str(), "): ", h.reason.as_str());
    c
}

/// The orchestration object marked as failed at hop `hop`: `status`
/// `failed`, the hop, the two agents and the error are set; a value that
/// is not an object stays as it is.
pub open spec fn failure_marked(m: JsonModel, hop: usize, from: Seq<char>, to: Seq<char>, error: Seq<char>) -> JsonModel {
    match m {
        JsonModel::Object(o) => JsonModel::Object(o
            .insert("status"@, JsonModel::Str("failed"@))
            .insert("failed_hop"@, json_u64(hop as u64))
            .insert("failed_from"@, JsonModel::Str(from))
            .insert("failed_to"@, JsonModel::Str(to))
            .insert("error"@, JsonModel::Str(error))),
        _ => m,
    }
}

impl AgentSession {
    /// A new session, `open`, with nothing recorded yet.
    pub fn open(id: String, now_ms: i64) -> (r: Self)
        ensures
            r.id == id,
            r.created_at_ms == now_ms,
            r.updated_at_ms == now_ms,
            r.active_agents@.len() == 0,
            r.shared_context@.len() == 0,
            r.task_state.status@ == "open"@,
            r.task_state.current_prompt is None,
            r.task_state.notes@.len() == 0,
            r.handoff_history@.len() == 0,
    {
        AgentSession {
            id,
            created_at_ms: now_ms,
            updated_at_ms: now_ms,
            active_agents: Vec::new(),
            shared_context: Vec::new(),
            task_state: TaskState { status: owned("open"), current_prompt: None, notes: Vec::new() },
            handoff_history: Vec::new(),
        }
    }

    /// Marks the session as working on `prompt`.
    pub fn mark_active(&mut self, prompt: &str, now_ms: i64)
        ensures
            final(self).task_state.current_prompt matches Some(p) && p@ == prompt@,
            final(self).task_state.status@ == "active"@,
            final(self).task_state.notes == old(self).task_state.notes,
            final(self).updated_at_ms == now_ms,
            final(self).id == old(self).id,
            final(self).created_at_ms == old(self).created_at_ms,
            final(self).active_agents == old(self).active_agents,
            final(self).shared_context == old(self).shared_context,
            final(self).handoff_history == old(self).handoff_history,
    {
        self.task_state.current_prompt = Some(owned(prompt));
        self.task_state.status = owned("active");
        self.updated_at_ms = now_ms;
    }

    /// Sets the status from the time since the last update: `active` under
    /// an hour, `idle` under a week, `stale` after.
    pub fn refresh_lifecycle(&mut self, now_ms: i64)
        ensures
            final(self).task_state.status@ == spec_lifecycle_for_hours(whole_hours(old(self).updated_at_ms, now_ms)),
            final(self).task_state.current_prompt == old(self).task_state.current_prompt,
            final(self).task_state.notes == old(self).task_state.notes,
            final(self).updated_at_ms == old(self).updated_at_ms,
            final(self).id == old(self).id,
            final(self).created_at_ms == old(self).created_at_ms,
            final(self).active_agents == old(self).active_agents,
            final(self).shared_context == old(self).shared_context,
            final(self).handoff_history == old(self).handoff_history,
    {
        let d: i128 = now_ms as i128 - self.updated_at_ms as i128;
        let h: i128 = if d >= 0 { d / 3_600_000 } else { -((-d) / 3_600_000) };
        assert(-5_200_000_000_000 <= h <= 5_200_000_000_000) by (nonlinear_arith)
            requires
                d == now_ms as i128 - self.updated_at_ms as i128,
                h == if d >= 0 { d / 3_600_000 } else { -((-d) / 3_600_000) },
        ;
        let hours: i64 = h as i64;
        self.task_state.status = owned(lifecycle_status_for_hours(hours));
    }

    /// The status shown in listings: a lifecycle status, else `open`.
    pub fn lifecycle_label(&self) -> (r: &str)
        ensures
            r@ == spec_lifecycle_label(self.task_state.status@),
    {
        lifecycle_label(self.task_state.status.as_str())
    }

    /// `active` when updated within the last `active_within_days` days,
    /// else `stale`.
    pub fn freshness_label(&self, active_within_days: i64, now_ms: i64) -> (r: &'static str)
        requires
            -106_751_991_167 <= active_within_days <= 106_751_991_167,
        ensures
            r@ == if self.updated_at_ms >= now_ms - active_within_days * 86_400_000 { "active"@ } else { "stale"@ },
    {
        let cutoff: i128 = now_ms as i128 - (active_within_days as i128) * 86_400_000;
        if self.updated_at_ms as i128 >= cutoff {
            "active"
        } else {
            "stale"
        }
    }

    /// The session was last updated more than `days` days before `now_ms`.
    pub fn expired(&self, days: u32, now_ms: i64) -> (r: bool)
        ensures
            r == (self.updated_at_ms < now_ms - days * 86_400_000),
    {
        let cutoff: i128 = now_ms as i128 - (days as i128) * 86_400_000;
        (self.updated_at_ms as i128) < cutoff
    }

    /// Makes `agent_id` the active agent of `layer_key`.
    pub fn set_active_agent(&mut self, layer_key: &str, agent_id: &str, layer: &str, now_ms: i64)
        ensures
            value_of(final(self).active_agents@, layer_key@) matches Some(slot) && slot.agent_id@ == agent_id@
                && slot.layer@ == layer@ && slot.activated_at_ms == now_ms,
            forall|k: Seq<char>| k != layer_key@ ==> #[trigger] value_of(final(self).active_agents@, k) == value_of(old(self).active_agents@, k),
            final(self).updated_at_ms == now_ms,
            final(self).shared_context == old(self).shared_context,
            final(self).task_state == old(self).task_state,
            final(self).handoff_history == old(self).handoff_history,
            final(self).id == old(self).id,
    {
        let slot = ActiveAgentSlot { agent_id: owned(agent_id), layer: owned(layer), activated_at_ms: now_ms };
        put_value(&mut self.active_agents, owned(layer_key), slot);
        self.updated_at_ms = now_ms;
    }

    /// Sets a shared context value.
    pub fn set_context(&mut self, key: &str, value: serde_json::Value, now_ms: i64)
        ensures
            value_of(final(self).shared_context@, key@) matches Some(ContextValue::Json(v)) && v == value,
            forall|k: Seq<char>| k != key@ ==> #[trigger] value_of(final(self).shared_context@, k) == value_of(old(self).shared_context@, k),
            final(self).updated_at_ms == now_ms,
            final(self).active_agents == old(self).active_agents,
            final(self).task_state == old(self).task_state,
            final(self).handoff_history == old(self).handoff_history,
            final(self).id == old(self).id,
    {
        put_value(&mut self.shared_context, owned(key), ContextValue::Json(value));
        self.updated_at_ms = now_ms;
    }

    /// Stores the progress of a multi-hop orchestration under `orchestration`.
    pub fn set_orchestration_state(&mut self, state: serde_json::Value, now_ms: i64)
        ensures
            value_of(final(self).shared_context@, orchestration_key()) matches Some(ContextValue::Json(v)) && v == state,
            forall|k: Seq<char>| k != orchestration_key() ==> #[trigger] value_of(final(self).shared_context@, k) == value_of(old(self).shared_context@, k),
            final(self).updated_at_ms == now_ms,
            final(self).active_agents == old(self).active_agents,
            final(self).task_state == old(self).task_state,
            final(self).handoff_history == old(self).handoff_history,
            final(self).id == old(self).id,
    {
        proof {
            reveal_strlit("orchestration");
        }
        put_value(&mut self.shared_context, owned("orchestration"), ContextValue::Json(state));
        self.updated_at_ms = now_ms;
    }

    /// Drops the orchestration state.
    pub fn clear_orchestration_state(&mut self, now_ms: i64)
        ensures
            value_of(final(self).shared_context@, orchestration_key()) is None,
            forall|k: Seq<char>| k != orchestration_key() ==> #[trigger] value_of(final(self).shared_context@, k) == value_of(old(self).shared_context@, k),
            final(self).updated_at_ms == now_ms,
            final(self).active_agents == old(self).active_agents,
            final(self).task_state == old(self).task_state,
            final(self).handoff_history == old(self).handoff_history,
            final(self).id == old(self).id,
    {
        proof {
            reveal_strlit("orchestration");
        }
        remove_key(&mut self.shared_context, "orchestration");
        self.updated_at_ms = now_ms;
    }

    /// Marks the orchestration as failed at hop `hop_index`: the fields
    /// `status` (`failed`), `failed_hop`, `failed_from`, `failed_to` and
    /// `error` are set in the orchestration object, which is created when
    /// there is none. A JSON value there that is no object is left as it is.
    pub fn record_chain_failure(&mut self, hop_index: usize, from_agent: &str, to_agent: &str, error: &str, now_ms: i64)
        ensures
            value_of(old(self).shared_context@, orchestration_key()) matches Some(ContextValue::ToolResults(l))
                ==> value_of(final(self).shared_context@, orchestration_key()) == value_of(old(self).shared_context@, orchestration_key()),
            !(value_of(old(self).shared_context@, orchestration_key()) matches Some(ContextValue::ToolResults(_)))
                ==> (value_of(final(self).shared_context@, orchestration_key()) matches Some(ContextValue::Json(v))
                    && json_model(v) == failure_marked(
                        match value_of(old(self).shared_context@, orchestration_key()) {
                            Some(ContextValue::Json(v0)) => json_model(v0),
                            _ => JsonModel::Object(Map::empty()),
                        },
                        hop_index, from_agent@, to_agent@, error@)),
            forall|k: Seq<char>| k != orchestration_key() ==> #[trigger] value_of(final(self).shared_context@, k) == value_of(old(self).shared_context@, k),
            final(self).updated_at_ms == now_ms,
            final(self).active_agents == old(self).active_agents,
            final(self).task_state == old(self).task_state,
            final(self).handoff_history == old(self).handoff_history,
            final(self).id == old(self).id,
    {
        proof {
            reveal_strlit("orchestration");
        }
        let current = match value_under(&self.shared_context, "orchestration") {
            Some(ContextValue::Json(v)) => Some(v.clone()),
            Some(ContextValue::ToolResults(_)) => {
                self.updated_at_ms = now_ms;
                return;
            },
            None => None,
        };
        let mut obj = match current {
            Some(v) => v,
            None => json_empty_object(),
        };
        let ghost m0 = json_model(obj);
        json_object_insert(&mut obj, "status", json_text("failed"));
        json_object_insert(&mut obj, "failed_hop", json_count(hop_index));
        json_object_insert(&mut obj, "failed_from", json_text(from_agent));
        json_object_insert(&mut obj, "failed_to", json_text(to_agent));
        json_object_insert(&mut obj, "error", json_text(error));
        assert(json_model(obj) == failure_marked(m0, hop_index, from_agent@, to_agent@, error@));
        put_value(&mut self.shared_context, owned("orchestration"), ContextValue::Json(obj));
        self.updated_at_ms = now_ms;
    }

    /// Appends a handoff to the history.
    pub fn record_handoff(
        &mut self,
        from_agent: &str,
        from_layer: &str,
        to_agent: &str,
        to_layer: &str,
        reason: &str,
        prompt: Option<&str>,
        now_ms: i64,
    )
        ensures
            final(self).handoff_history@.len() == old(self).handoff_history@.len() + 1,
            final(self).handoff_history@.drop_last() == old(self).handoff_history@,
            ({
                let h = final(self).handoff_history@.last();
                &&& h.timestamp_ms == now_ms
                &&& h.from_agent@ == from_agent@
                &&& h.from_layer@ == from_layer@
                &&& h.to_agent@ == to_agent@
                &&& h.to_layer@ == to_layer@
                &&& h.reason@ == reason@
                &&& match prompt { Some(p) => h.prompt matches Some(q) && q@ == p@, None => h.prompt is None }
            }),
            final(self).updated_at_ms == now_ms,
            final(self).active_agents == old(self).active_agents,
            final(self).shared_context == old(self).shared_context,
            final(self).task_state == old(self).task_state,
            final(self).id == old(self).id,
    {
        let p = match prompt {
            Some(x) => Some(owned(x)),
            None => None,
        };
        self.handoff_history.push(HandoffRecord {
            timestamp_ms: now_ms,
            from_agent: owned(from_agent),
            from_layer: owned(from_layer),
            to_agent: owned(to_agent),
            to_layer: owned(to_layer),
            reason: owned(reason),
            prompt: p,
        });
        assert(self.handoff_history@.drop_last() =~= old(self).handoff_history@);
        self.updated_at_ms = now_ms;
    }

    /// Appends a dispatch result to the recorded tool results, keeping the
    /// newest `MAX_TOOL_RESULTS`. Where the value under `tool_results` is a
    /// JSON array (one that does not hold records), `record_json`, the
    /// record's JSON form, is appended to it instead; any other JSON value
    /// there is left as it is.
    pub fn record_tool_result(&mut self, record: ToolResultRecord, record_json: serde_json::Value, now_ms: i64)
        ensures
            match value_of(old(self).shared_context@, tool_results_key()) {
                None => value_of(final(self).shared_context@, tool_results_key()) matches Some(ContextValue::ToolResults(l))
                    && l@ == seq![record],
                Some(ContextValue::ToolResults(l0)) => value_of(final(self).shared_context@, tool_results_key()) matches Some(ContextValue::ToolResults(l))
                    && l@ == last_n(l0@.push(record), MAX_TOOL_RESULTS as nat),
                Some(ContextValue::Json(v0)) => match as_array_of(json_model(v0)) {
                    Some(items) => value_of(final(self).shared_context@, tool_results_key()) matches Some(ContextValue::Json(v))
                        && json_model(v) == JsonModel::Array(last_n(items.push(json_model(record_json)), MAX_TOOL_RESULTS as nat)),
                    None => value_of(final(self).shared_context@, tool_results_key()) == value_of(old(self).shared_context@, tool_results_key()),
                },
            },
            forall|k: Seq<char>| k != tool_results_key() ==> #[trigger] value_of(final(self).shared_context@, k) == value_of(old(self).shared_context@, k),
            final(self).updated_at_ms == now_ms,
            final(self).active_agents == old(self).active_agents,
            final(self).task_state == old(self).task_state,
            final(self).handoff_history == old(self).handoff_history,
            final(self).id == old(self).id,
    {
        proof {
            reveal_strlit("tool_results");
        }
        let list = match value_under(&self.shared_context, "tool_results") {
            None => Some(Vec::new()),
            Some(ContextValue::ToolResults(l)) => Some(copy_records(l)),
            Some(ContextValue::Json(v)) => {
                match json_as_array(v) {
                    Some(items) => {
                        let mut items = items;
                        let ghost before = items@;
                        items.push(record_json);
                        let ghost pushed = items@;
                        retain_last(&mut items, MAX_TOOL_RESULTS);
                        proof {
                            assert(json_models(pushed) =~= json_models(before).push(json_model(record_json)));
                            if pushed.len() > MAX_TOOL_RESULTS {
                                assert(json_models(items@) =~= json_models(pushed).subrange(
                                    pushed.len() - MAX_TOOL_RESULTS, pushed.len() as int));
                            }
                        }
                        let nv = json_array(items);
                        put_value(&mut self.shared_context, owned("tool_results"), ContextValue::Json(nv));
                    },
                    None => {},
                }
                None
            },
        };
        match list {
            Some(mut l) => {
                l.push(record);
                retain_last(&mut l, MAX_TOOL_RESULTS);
                put_value(&mut self.shared_context, owned("tool_results"), ContextValue::ToolResults(l));
            },
            None => {},
        }
        self.updated_at_ms = now_ms;
    }

    /// A summary of the last `max_entries` recorded tool results, one line
    /// each: `- tool [ok|failed]: ` and the first 500 characters of the output.
    pub fn tool_results_summary(&self, max_entries: usize) -> (r: String)
        ensures
            r@ == spec_results_summary(self.shared_context@, max_entries as nat),
    {
        proof {
            reveal_strlit("tool_results");
            reveal_strlit("(no prior tool results)");
            reveal_strlit("\n");
        }
        let list = match value_under(&self.shared_context, "tool_results") {
            Some(ContextValue::ToolResults(l)) => l,
            _ => return owned("(no prior tool results)"),
        };
        if list.len() == 0 {
            return owned("(no prior tool results)");
        }
        let start: usize = if list.len() <= max_entries { 0 } else { list.len() - max_entries };
        let mut lines: Vec<String> = Vec::new();
        let mut i: usize = start;
        let ghost tail = last_n(list@, max_entries as nat);
        proof {
            assert(tail =~= list@.subrange(start as int, list@.len() as int));
        }
        while i < list.len()
            invariant
                start <= i <= list.len(),
                tail == list@.subrange(start as int, list@.len() as int),
                views(lines@) == tail.subrange(0, i - start).map_values(|r: ToolResultRecord| result_line(r)),
            decreases list.len() - i,
        {
            let line = tool_line(&list[i]);
            let ghost before = lines@;
            lines.push(line);
            proof {
                assert(views(lines@) =~= views(before).push(result_line(list@[i as int])));
                assert(tail.subrange(0, i + 1 - start) =~= tail.subrange(0, i - start).push(list@[i as int]));
                assert(views(lines@) =~= tail.subrange(0, i + 1 - start).map_values(|r: ToolResultRecord| result_line(r)));
            }
            i = i + 1;
        }
        proof {
            assert(tail.subrange(0, i - start) =~= tail);
        }
        join_with(&lines, "\n")
    }

    /// The prompt context given the JSON text of the shared context other
    /// than tool results and of the orchestration state: session id,
    /// lifecycle, current task, recent tool results, shared context,
    /// orchestration, the last five handoffs and the active agents, one
    /// part per line, each part present only when there is something to say.
    pub fn prompt_context_with(&self, context_text: Option<String>, orchestration_text: Option<String>) -> (r: String)
        ensures
            r@ == joined(prompt_parts(*self, opt_view(context_text), opt_view(orchestration_text)), "\n"@),
    {
        proof {
            reveal_strlit("(no prior tool results)");
        }
        let mut parts: Vec<String> = Vec::new();
        parts.push(concat2("session_id: ", self.id.as_str()));
        parts.push(concat2("lifecycle: ", self.lifecycle_label()));
        let ghost p0 = seq!["session_id: "@ + self.id@, "lifecycle: "@ + spec_lifecycle_label(self.task_state.status@)];
        assert(views(parts@) =~= p0);
        match &self.task_state.current_prompt {
            Some(p) => parts.push(concat2("current_task: ", p.as_str())),
            None => {},
        }
        let ghost p1 = if self.task_state.current_prompt is Some {
            p0.push("current_task: "@ + self.task_state.current_prompt->Some_0@)
        } else {
            p0
        };
        assert(views(parts@) =~= p1);
        let summary = self.tool_results_summary(5);
        if !str_equal(summary.as_str(), "(no prior tool results)") {
            parts.push(concat2("recent_tool_results:\n", summary.as_str()));
        }
        let ghost sm = spec_results_summary(self.shared_context@, 5);
        let ghost p2 = if sm != no_results_text() { p1.push("recent_tool_results:\n"@ + sm) } else { p1 };
        assert(views(parts@) =~= p2);
        match &context_text {
            Some(t) => parts.push(concat2("shared_context:\n", t.as_str())),
            None => {},
        }
        let ghost p3 = match opt_view(context_text) {
            Some(t) => p2.push("shared_context:\n"@ + t),
            None => p2,
        };
        assert(views(parts@) =~= p3);
        match &orchestration_text {
            Some(t) => parts.push(concat2("orchestration_chain: ", t.as_str())),
            None => {},
        }
        let ghost p4 = match opt_view(orchestration_text) {
            Some(t) => p3.push("orchestration_chain: "@ + t),
            None => p3,
        };
        assert(views(parts@) =~= p4);
        let hs = &self.handoff_history;
        if hs.len() > 0 {
            let start: usize = if hs.len() <= 5 { 0 } else { hs.len() - 5 };
            let ghost tail = last_n(hs@, 5);
            assert(tail =~= hs@.subrange(start as int, hs@.len() as int));
            let mut lines: Vec<String> = Vec::new();
            let mut i: usize = start;
            while i < hs.len()
                invariant
                    start <= i <= hs.len(),
                    tail == hs@.subrange(start as int, hs@.len() as int),
                    views(lines@) == tail.subrange(0, i - start).map_values(|h: HandoffRecord| handoff_line(h)),
                decreases hs.len() - i,
            {
                let ghost before = lines@;
                lines.push(handoff_text(&hs[i]));
                proof {
                    assert(views(lines@) =~= views(before).push(handoff_line(hs@[i as int])));
                    assert(tail.subrange(0, i + 1 - start) =~= tail.subrange(0, i - start).push(hs@[i as int]));
                    assert(views(lines@) =~= tail.subrange(0, i + 1 - start).map_values(|h: HandoffRecord| handoff_line(h)));
                }
                i = i + 1;
            }
            proof {
                assert(tail.subrange(0, i - start) =~= tail);
            }
            let body = join_with(&lines, "\n");
            parts.push(concat2("recent_handoffs:\n", body.as_str()));
        }
        let ghost p5 = if self.handoff_history@.len() > 0 {
            p4.push("recent_handoffs:\n"@ + joined(last_n(self.handoff_history@, 5).map_values(|h: HandoffRecord| handoff_line(h)), "\n"@))
        } else {
            p4
        };
        assert(views(parts@) =~= p5);
        let ag = &self.active_agents;
        if ag.len() > 0 {
            let mut entries: Vec<String> = Vec::new();
            let mut i: usize = 0;
            while i < ag.len()
                invariant
                    i <= ag.len(),
                    views(entries@) == ag@.subrange(0, i as int).map_values(|e: (String, ActiveAgentSlot)| agent_entry(e)),
                decreases ag.len() - i,
            {
                let ghost before = entries@;
                entries.push(concat3(ag[i].0.as_str(), ": ", ag[i].1.agent_id.as_str()));
                proof {
                    assert(views(entries@) =~= views(before).push(agent_entry(ag@[i as int])));
                    assert(ag@.subrange(0, i + 1) =~= ag@.subrange(0, i as int).push(ag@[i as int]));
                    assert(views(entries@) =~= ag@.subrange(0, i + 1).map_values(|e: (String, ActiveAgentSlot)| agent_entry(e)));
                }
                i = i + 1;
            }
            proof {
                assert(ag@.subrange(0, i as int) =~= ag@);
            }
            let body = join_with(&entries, ", ");
            parts.push(concat2("active_agents: ", body.as_str()));
        }
        assert(views(parts@) =~= prompt_parts(*self, opt_view(context_text), opt_view(orchestration_text)));
        join_with(&parts, "\n")
    }

    /// The JSON entries of the shared context other than the tool results.
    fn other_context(&self) -> (r: Vec<(String, serde_json::Value)>)
        ensures
            r@ == other_entries(self.shared_context@),
    {
        proof {
            reveal_strlit("tool_results");
        }
        let mut r: Vec<(String, serde_json::Value)> = Vec::new();
        let mut i: usize = 0;
        while i < self.shared_context.len()
            invariant
                i <= self.shared_context.len(),
                r@ == other_entries(self.shared_context@.subrange(0, i as int)),
            decreases self.shared_context.len() - i,
        {
            proof {
                assert(self.shared_context@.subrange(0, i + 1).drop_last() =~= self.shared_context@.subrange(0, i as int));
                assert(self.shared_context@.subrange(0, i + 1).last() == self.shared_context@[i as int]);
            }
            if !str_equal(self.shared_context[i].0.as_str(), "tool_results") {
                match &self.shared_context[i].1 {
                    ContextValue::Json(v) => {
                        r.push((self.shared_context[i].0.clone(), v.clone()));
                    },
                    ContextValue::ToolResults(_) => {},
                }
            }
            i = i + 1;
        }
        proof {
            assert(self.shared_context@.subrange(0, i as int) =~= self.shared_context@);
        }
        r
    }

    /// The prompt context: `prompt_context_with` given the JSON text of the
    /// shared context other than tool results (when there is such) and of
    /// the orchestration state (when it is JSON).
    pub fn prompt_context(&self) -> (r: String)
        ensures
            r@ == joined(prompt_parts(*self,
                if other_entries(self.shared_context@).len() > 0 {
                    Some(json_pretty_object_text(entries_map(other_entries(self.shared_context@))))
                } else {
                    None
                },
                match value_of(self.shared_context@, orchestration_key()) {
                    Some(ContextValue::Json(v)) => Some(json_compact_text(json_model(v))),
                    _ => None,
                }), "\n"@),
    {
        proof {
            reveal_strlit("orchestration");
        }
        let other = self.other_context();
        let context_text = if other.len() > 0 { Some(context_json_pretty(&other)) } else { None };
        let orchestration_text = match value_under(&self.shared_context, "orchestration") {
            Some(ContextValue::Json(v)) => Some(json_compact(v)),
            _ => None,
        };
        let r = self.prompt_context_with(context_text, orchestration_text);
        assert(r@ == joined(prompt_parts(*self, opt_view(context_text), opt_view(orchestration_text)), "\n"@));
        r
    }
}

/// A refreshed status is always a lifecycle status, so listings show it
/// as it is (never as `open`).
pub proof fn law_refreshed_status_is_shown(hours: int)
    ensures
        spec_lifecycle_label(spec_lifecycle_for_hours(hours)) == spec_lifecycle_for_hours(hours),
{
    reveal_strlit("active");
    reveal_strlit("idle");
    reveal_strlit("stale");
}

/// Recording tool results keeps at most `MAX_TOOL_RESULTS` of them, the
/// newest last.
pub proof fn law_tool_results_bounded(list: Seq<ToolResultRecord>, record: ToolResultRecord)
    ensures
        last_n(list.push(record), MAX_TOOL_RESULTS as nat).len() <= MAX_TOOL_RESULTS,
        last_n(list.push(record), MAX_TOOL_RESULTS as nat).last() == record,
        list.len() < MAX_TOOL_RESULTS ==> last_n(list.push(record), MAX_TOOL_RESULTS as nat) == list.push(record),
{
}

/// The summary lists at most `max` results.
pub proof fn law_summary_lines_bounded(list: Seq<ToolResultRecord>, max: nat)
    ensures
        last_n(list, max).len() <= max,
        last_n(list, max).len() <= list.len(),
{
}

/// What was recorded last is what the summary shows last: after a tool
/// result is recorded, the summary of the newest results (any positive
/// number of them) ends with its line.
pub proof fn law_latest_result_is_summarized(list: Seq<ToolResultRecord>, record: ToolResultRecord, max: nat)
    requires
        max > 0,
    ensures
        result_line(record).is_suffix_of(
            joined(last_n(list.push(record), max).map_values(|r: ToolResultRecord| result_line(r)), "\n"@),
        ),
{
    let v = last_n(list.push(record), max).map_values(|r: ToolResultRecord| result_line(r));
    assert(v.len() >= 1);
    assert(v.last() == result_line(record));
    let j = joined(v, "\n"@);
    if v.len() == 1 {
        assert(j == v[0]);
        assert(result_line(record) =~= j.subrange(0, j.len() as int));
    } else {
        assert(j == joined(v.drop_last(), "\n"@) + "\n"@ + v.last());
        let pre = joined(v.drop_last(), "\n"@) + "\n"@;
        assert(j == pre + result_line(record));
        assert(result_line(record) =~= j.subrange(pre.len() as int, j.len() as int));
    }
}

/// The preview of a tool output in a summary line is the output's first
/// characters: a prefix of it, of length `min(len, 500)`.
pub proof fn law_preview_is_prefix(o: Seq<char>)
    ensures
        preview(o).is_prefix_of(o),
        preview(o).len() == if o.len() <= 500 { o.len() } else { 500 },
        forall|i: int| 0 <= i < preview(o).len() ==> preview(o)[i] == o[i],
{
}

/// When a session holds handoffs, the prompt context has a
/// `recent_handoffs` part listing, in order, exactly the last
/// `min(len, 5)` handoffs of the history, so the line of the most recent
/// handoff is always the last line of that part.
pub proof fn law_recent_handoffs_are_the_newest(s: AgentSession, ct: Option<Seq<char>>, ot: Option<Seq<char>>)
    requires
        s.handoff_history@.len() > 0,
    ensures
        ({
            let hs = s.handoff_history@;
            let k: int = if hs.len() <= 5 { hs.len() as int } else { 5 };
            let lines = Seq::new(k as nat, |i: int| handoff_line(hs[hs.len() - k + i]));
            &&& lines.last() == handoff_line(hs.last())
            &&& exists|j: int| 0 <= j < prompt_parts(s, ct, ot).len()
                && #[trigger] prompt_parts(s, ct, ot)[j] == "recent_handoffs:\n"@ + joined(lines, "\n"@)
        }),
{
    let hs = s.handoff_history@;
    let k: int = if hs.len() <= 5 { hs.len() as int } else { 5 };
    let lines = Seq::new(k as nat, |i: int| handoff_line(hs[hs.len() - k + i]));
    assert(last_n(hs, 5).map_values(|h: HandoffRecord| handoff_line(h)) =~= lines);
    let p0 = seq!["session_id: "@ + s.id@, "lifecycle: "@ + spec_lifecycle_label(s.task_state.status@)];
    let p1 = match s.task_state.current_prompt {
        Some(p) => p0.push("current_task: "@ + p@),
        None => p0,
    };
    let summary = spec_results_summary(s.shared_context@, 5);
    let p2 = if summary != no_results_text() { p1.push("recent_tool_results:\n"@ + summary) } else { p1 };
    let p3 = match ct {
        Some(t) => p2.push("shared_context:\n"@ + t),
        None => p2,
    };
    let p4 = match ot {
        Some(t) => p3.push("orchestration_chain: "@ + t),
        None => p3,
    };
    let x = "recent_handoffs:\n"@ + joined(lines, "\n"@);
    let parts = prompt_parts(s, ct, ot);
    assert(parts[p4.len() as int] == x);
}

} // verus!
