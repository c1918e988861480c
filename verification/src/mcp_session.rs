//! The exchange with an MCP server as a state machine: `initialize`
//! (id 1), then the `initialized` notification and `tools/call` (id 2),
//! replies matched by id. The caller writes the messages and reads the
//! lines; each step decides what comes next.

use vstd::prelude::*;
use crate::error::McpError;
use crate::json::{json_empty_object, json_model, json_parse, member, JsonModel};
use crate::mcp_protocol::{
    content_texts, error_flag, error_member, extract_tool_text, initialize_params, message_id, no_reply_error,
    read_reply_line, rpc_notification, rpc_request, spec_initialize_params, spec_rpc_notification,
    spec_rpc_request, spec_tool_call_params, text_outcome, tool_call_params, tool_text, ReplyLine, MAX_REPLY_LINES,
};
use crate::json::json_compact_text;
use crate::text::{decimal, owned, trim};

verus! {

/// Where the exchange stands.
pub enum McpState {
    /// Nothing was sent yet; the call to make is kept for later.
    Start { wire_tool: String, tool_args: serde_json::Value },
    /// `initialize` was sent; `seen` lines were read without its reply.
    AwaitInit { seen: usize, wire_tool: String, tool_args: serde_json::Value },
    /// `tools/call` was sent; `seen` lines were read without its reply.
    AwaitCall { seen: usize },
    /// The exchange is over.
    Done,
}

/// What happened since the last step.
pub enum McpEvent {
    /// The server was started.
    Begin,
    /// One line was read from the server.
    Line(String),
}

/// What the caller does next.
pub enum McpAction {
    /// Write these messages, one per line, then read a line.
    Send(Vec<serde_json::Value>),
    /// Read a line.
    Read,
    /// The exchange ended with this outcome.
    Finish(Result<String, McpError>),
}

/// How a line read while waiting for the reply to `id` counts: `None` when
/// it is skipped (blank, or a message with another id or none),
/// `Some(Err(t))` when it is not JSON (`t` is the parser's error),
/// `Some(Ok(m))` for the reply `m`.
pub open spec fn line_reply(line: Seq<char>, id: u64) -> Option<Result<JsonModel, Seq<char>>> {
    if trim(line).len() == 0 {
        None
    } else {
        match json_parse(line) {
            Err(t) => Some(Err(t)),
            Ok(m) => if message_id(m) == Some(id) {
                Some(Ok(m))
            } else {
                None
            },
        }
    }
}

/// `a` ends the exchange with the failure of reply `m`, which has an error
/// member or lacks a result.
pub open spec fn failed_reply(m: JsonModel, a: McpAction) -> bool {
    match error_member(m) {
        Some(msg) => a matches McpAction::Finish(Err(McpError::Tool(t))) && t@ == match msg {
            Some(x) => x,
            None => "mcp error"@,
        },
        None => a matches McpAction::Finish(Err(McpError::Protocol(t))) && t@ == "response missing result"@,
    }
}

/// A reply carries a result.
pub open spec fn reply_ok(m: JsonModel) -> bool {
    error_member(m) is None && member(m, "result"@) is Some
}

/// The messages `ms` are, in order, the given models.
pub open spec fn sends(a: McpAction, models: Seq<JsonModel>) -> bool {
    a matches McpAction::Send(ms) && ms@.len() == models.len()
        && forall|k: int| 0 <= k < models.len() ==> json_model(#[trigger] ms@[k]) == models[k]
}

/// The step after a line that is not the reply to `id`, with `seen` lines
/// read before it: read on, or give up after `MAX_REPLY_LINES` lines.
pub open spec fn skip_step(seen: usize, id: u64, next: McpState, r: (McpState, McpAction)) -> bool {
    if seen + 1 >= MAX_REPLY_LINES {
        r.0 is Done && (r.1 matches McpAction::Finish(Err(McpError::Protocol(t)))
            && t@ == "no response for id "@ + decimal(id as nat))
    } else {
        r.0 == next && r.1 is Read
    }
}

/// The whole exchange, one step at a time: on `Begin` the `initialize`
/// request (id 1) is sent; its reply (matched by id) leads to the
/// `notifications/initialized` notification and the `tools/call` request
/// (id 2) for the kept tool and arguments; the reply to that gives the
/// tool's text (`tool_text`). A line that is not JSON, or a reply with an
/// error or without a result, ends the exchange with that failure; after
/// `MAX_REPLY_LINES` lines without the reply it ends with no response.
pub open spec fn spec_step(s: McpState, e: McpEvent, r: (McpState, McpAction)) -> bool {
    match (s, e) {
        (McpState::Start { wire_tool, tool_args }, McpEvent::Begin) => {
            &&& r.0 == (McpState::AwaitInit { seen: 0, wire_tool, tool_args })
            &&& sends(r.1, seq![spec_rpc_request(1, "initialize"@, spec_initialize_params())])
        },
        (McpState::AwaitInit { seen, wire_tool, tool_args }, McpEvent::Line(l)) => match line_reply(l@, 1) {
            None => skip_step(seen, 1, McpState::AwaitInit { seen: (seen + 1) as usize, wire_tool, tool_args }, r),
            Some(Err(t)) => r.0 is Done && (r.1 matches McpAction::Finish(Err(McpError::Protocol(x))) && x@ == t),
            Some(Ok(m)) => if reply_ok(m) {
                &&& r.0 == (McpState::AwaitCall { seen: 0 })
                &&& sends(r.1, seq![
                    spec_rpc_notification("notifications/initialized"@, JsonModel::Object(Map::empty())),
                    spec_rpc_request(2, "tools/call"@, spec_tool_call_params(wire_tool@, json_model(tool_args))),
                ])
            } else {
                r.0 is Done && failed_reply(m, r.1)
            },
        },
        (McpState::AwaitCall { seen }, McpEvent::Line(l)) => match line_reply(l@, 2) {
            None => skip_step(seen, 2, McpState::AwaitCall { seen: (seen + 1) as usize }, r),
            Some(Err(t)) => r.0 is Done && (r.1 matches McpAction::Finish(Err(McpError::Protocol(x))) && x@ == t),
            Some(Ok(m)) => if reply_ok(m) {
                let res = member(m, "result"@)->Some_0;
                r.0 is Done && (r.1 matches McpAction::Finish(out)
                    && text_outcome(tool_text(error_flag(res), content_texts(res), json_compact_text(res)), out))
            } else {
                r.0 is Done && failed_reply(m, r.1)
            },
        },
        _ => r.0 is Done && (r.1 matches McpAction::Finish(Err(McpError::Protocol(t)))
            && t@ == "unexpected exchange step"@),
    }
}

fn after_skip(seen: usize, id: u64, next: McpState) -> (r: (McpState, McpAction))
    requires
        next matches McpState::AwaitInit { seen: s, .. } ==> s == seen + 1,
        next matches McpState::AwaitCall { seen: s } ==> s == seen + 1,
        seen < MAX_REPLY_LINES,
    ensures
        skip_step(seen, id, next, r),
{
    if seen + 1 >= MAX_REPLY_LINES {
        (McpState::Done, McpAction::Finish(Err(no_reply_error(id))))
    } else {
        (next, McpAction::Read)
    }
}

/// The invariant of the states the exchange passes through.
pub open spec fn state_ok(s: McpState) -> bool {
    match s {
        McpState::AwaitInit { seen, .. } => seen < MAX_REPLY_LINES,
        McpState::AwaitCall { seen } => seen < MAX_REPLY_LINES,
        _ => true,
    }
}

/// One step of the exchange (see `spec_step`).
pub fn mcp_session_step(s: McpState, e: McpEvent) -> (r: (McpState, McpAction))
    requires
        state_ok(s),
    ensures
        spec_step(s, e, r),
        state_ok(r.0),
{
    proof {
        reveal_strlit("initialize");
        reveal_strlit("notifications/initialized");
        reveal_strlit("tools/call");
    }
    match (s, e) {
        (McpState::Start { wire_tool, tool_args }, McpEvent::Begin) => {
            let msg = rpc_request(1, "initialize", initialize_params());
            let ms = vec![msg];
            (McpState::AwaitInit { seen: 0, wire_tool, tool_args }, McpAction::Send(ms))
        },
        (McpState::AwaitInit { seen, wire_tool, tool_args }, McpEvent::Line(l)) => {
            match read_reply_line(l.as_str(), 1) {
                ReplyLine::Skip => after_skip(seen, 1, McpState::AwaitInit { seen: seen + 1, wire_tool, tool_args }),
                ReplyLine::Reply(Err(e)) => (McpState::Done, McpAction::Finish(Err(e))),
                ReplyLine::Reply(Ok(_)) => {
                    let note = rpc_notification("notifications/initialized", json_empty_object());
                    let call = rpc_request(2, "tools/call", tool_call_params(wire_tool.as_str(), tool_args));
                    let ms = vec![note, call];
                    (McpState::AwaitCall { seen: 0 }, McpAction::Send(ms))
                },
            }
        },
        (McpState::AwaitCall { seen }, McpEvent::Line(l)) => {
            match read_reply_line(l.as_str(), 2) {
                ReplyLine::Skip => after_skip(seen, 2, McpState::AwaitCall { seen: seen + 1 }),
                ReplyLine::Reply(Err(e)) => (McpState::Done, McpAction::Finish(Err(e))),
                ReplyLine::Reply(Ok(v)) => (McpState::Done, McpAction::Finish(extract_tool_text(&v))),
            }
        },
        _ => (McpState::Done, McpAction::Finish(Err(McpError::Protocol(owned("unexpected exchange step"))))),
    }
}

/// `tools/call` is sent only in answer to the reply that carries the
/// result of `initialize` (id 1), and the exchange sends nothing else
/// after it: once the call is pending, steps only read or finish.
pub proof fn law_call_follows_initialize(s: McpState, e: McpEvent, r: (McpState, McpAction))
    requires
        spec_step(s, e, r),
    ensures
        r.0 is AwaitCall && r.1 is Send ==> (s is AwaitInit && (e matches McpEvent::Line(l)
            && line_reply(l@, 1) matches Some(Ok(m)) && reply_ok(m))),
        s is AwaitCall ==> !(r.1 is Send),
{
}

} // verus!
