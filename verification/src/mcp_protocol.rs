//! The JSON-RPC exchange with an MCP server over its stdio: the messages
//! the client sends, how it reads the replies line by line, and the text
//! it takes from a `tools/call` result.

use vstd::prelude::*;
use crate::error::McpError;
use crate::error::json_error_text;
use crate::json::{json_as_array, json_as_bool, json_as_str, json_as_u64, json_compact, json_count_u64, json_empty_object, json_field, json_from_str, json_object_insert, json_text, json_valid, json_model, json_u64, JsonModel, member, as_u64_of, as_bool_of, as_str_of, as_array_of, json_compact_text, json_parse, str_member, json_models};
use crate::numbers::{parse_unsigned, spec_parse_unsigned};
use crate::seccomp::opt_str_view;
use crate::text::{concat2, decimal, decimal_string, join_with, joined, owned, trim, trim_bounds, views};

verus! {

/// MCP protocol version sent in `initialize`.
pub const PROTOCOL_VERSION: &'static str = "2024-11-05";

/// Seconds a call may take when `RMNG_MCP_TIMEOUT_SECS` sets nothing valid.
pub const DEFAULT_CALL_TIMEOUT_SECS: u64 = 60;

/// Seconds to wait for a killed server to exit.
pub const KILL_WAIT_TIMEOUT_SECS: u64 = 5;

/// Lines read while waiting for the reply to one request.
pub const MAX_REPLY_LINES: usize = 32;

/// The call timeout set by `RMNG_MCP_TIMEOUT_SECS` (`raw`), in seconds: the
/// value when it is an unsigned number, else the default.
pub open spec fn spec_call_timeout(raw: Option<Seq<char>>) -> nat {
    match raw {
        Some(s) => match spec_parse_unsigned(s, u64::MAX as nat) {
            Some(n) => n,
            None => DEFAULT_CALL_TIMEOUT_SECS as nat,
        },
        None => DEFAULT_CALL_TIMEOUT_SECS as nat,
    }
}

pub fn call_timeout_secs(raw: Option<&str>) -> (r: u64)
    ensures
        r as nat == spec_call_timeout(opt_str_view(raw)),
{
    match raw {
        Some(s) => match parse_unsigned(s, u64::MAX) {
            Some(n) => n,
            None => DEFAULT_CALL_TIMEOUT_SECS,
        },
        None => DEFAULT_CALL_TIMEOUT_SECS,
    }
}

/// The JSON-RPC request object: `jsonrpc` `2.0`, the id, method and
/// parameters.
pub open spec fn spec_rpc_request(id: u64, method: Seq<char>, params: JsonModel) -> JsonModel {
    JsonModel::Object(Map::empty()
        .insert("jsonrpc"@, JsonModel::Str("2.0"@))
        .insert("id"@, json_u64(id))
        .insert("method"@, JsonModel::Str(method))
        .insert("params"@, params))
}

/// The JSON-RPC notification object: a request without an id.
pub open spec fn spec_rpc_notification(method: Seq<char>, params: JsonModel) -> JsonModel {
    JsonModel::Object(Map::empty()
        .insert("jsonrpc"@, JsonModel::Str("2.0"@))
        .insert("method"@, JsonModel::Str(method))
        .insert("params"@, params))
}

/// The parameters of `initialize`: the protocol version, no capabilities
/// and the client's name and version.
pub open spec fn spec_initialize_params() -> JsonModel {
    JsonModel::Object(Map::empty()
        .insert("protocolVersion"@, JsonModel::Str(PROTOCOL_VERSION@))
        .insert("capabilities"@, JsonModel::Object(Map::empty()))
        .insert("clientInfo"@, JsonModel::Object(Map::empty()
            .insert("name"@, JsonModel::Str("rmng-mcp"@))
            .insert("version"@, JsonModel::Str("0.1.0"@)))))
}

/// The parameters of `tools/call`: the tool's wire name and its arguments.
pub open spec fn spec_tool_call_params(wire_tool: Seq<char>, arguments: JsonModel) -> JsonModel {
    JsonModel::Object(Map::empty()
        .insert("name"@, JsonModel::Str(wire_tool))
        .insert("arguments"@, arguments))
}

/// A JSON-RPC request: `jsonrpc` `2.0`, its id, method and parameters.
pub fn rpc_request(id: u64, method: &str, params: serde_json::Value) -> (r: serde_json::Value)
    ensures
        json_model(r) == spec_rpc_request(id, method@, json_model(params)),
{
    let mut msg = json_empty_object();
    json_object_insert(&mut msg, "jsonrpc", json_text("2.0"));
    json_object_insert(&mut msg, "id", json_count_u64(id));
    json_object_insert(&mut msg, "method", json_text(method));
    json_object_insert(&mut msg, "params", params);
    msg
}

/// A JSON-RPC notification: a request without an id.
pub fn rpc_notification(method: &str, params: serde_json::Value) -> (r: serde_json::Value)
    ensures
        json_model(r) == spec_rpc_notification(method@, json_model(params)),
{
    let mut msg = json_empty_object();
    json_object_insert(&mut msg, "jsonrpc", json_text("2.0"));
    json_object_insert(&mut msg, "method", json_text(method));
    json_object_insert(&mut msg, "params", params);
    msg
}

/// The parameters of `initialize`: protocol version, no capabilities, and
/// the client's name and version.
pub fn initialize_params() -> (r: serde_json::Value)
    ensures
        json_model(r) == spec_initialize_params(),
{
    let mut info = json_empty_object();
    json_object_insert(&mut info, "name", json_text("rmng-mcp"));
    json_object_insert(&mut info, "version", json_text("0.1.0"));
    let mut p = json_empty_object();
    json_object_insert(&mut p, "protocolVersion", json_text(PROTOCOL_VERSION));
    json_object_insert(&mut p, "capabilities", json_empty_object());
    json_object_insert(&mut p, "clientInfo", info);
    p
}

/// The parameters of `tools/call`: the tool's wire name and its arguments.
pub fn tool_call_params(wire_tool: &str, arguments: serde_json::Value) -> (r: serde_json::Value)
    ensures
        json_model(r) == spec_tool_call_params(wire_tool@, json_model(arguments)),
{
    let mut p = json_empty_object();
    json_object_insert(&mut p, "name", json_text(wire_tool));
    json_object_insert(&mut p, "arguments", arguments);
    p
}

/// What one line read from the server means for the pending request.
#[derive(Debug)]
pub enum ReplyLine {
    /// Not the reply: read the next line.
    Skip,
    /// The reply: the request's result, or why it failed.
    Reply(Result<serde_json::Value, McpError>),
}

/// The reply to a request, given its `error` member (and the `message`
/// string in it) and its `result` member: an error gives a tool error with
/// its message (`mcp error` when there is none); else the result, which
/// must be there.
pub fn reply_outcome(error: Option<Option<String>>, result: Option<serde_json::Value>) -> (r: Result<serde_json::Value, McpError>)
    ensures
        error matches Some(m) ==> r matches Err(McpError::Tool(t)) && t@ == match m {
            Some(x) => x@,
            None => "mcp error"@,
        },
        error is None ==> match result {
            Some(v) => r == Ok::<serde_json::Value, McpError>(v),
            None => r matches Err(McpError::Protocol(t)) && t@ == "response missing result"@,
        },
{
    match error {
        Some(m) => {
            let text = match m {
                Some(x) => x,
                None => owned("mcp error"),
            };
            Err(McpError::Tool(text))
        },
        None => match result {
            Some(v) => Ok(v),
            None => Err(McpError::Protocol(owned("response missing result"))),
        },
    }
}

/// `o` is the tool error of a reply whose error member has message `m`.
pub open spec fn tool_error_text(m: Option<Seq<char>>, o: Result<serde_json::Value, McpError>) -> bool {
    o matches Err(McpError::Tool(t)) && t@ == match m {
        Some(x) => x,
        None => "mcp error"@,
    }
}

/// The id of a JSON-RPC message, when it is an unsigned integer.
pub open spec fn message_id(m: JsonModel) -> Option<u64> {
    match member(m, "id"@) {
        Some(i) => as_u64_of(i),
        None => None,
    }
}

/// The `error` member of a reply, read as the `message` string in it.
pub open spec fn error_member(m: JsonModel) -> Option<Option<Seq<char>>> {
    match member(m, "error"@) {
        Some(e) => Some(str_member(e, "message"@)),
        None => None,
    }
}

/// `o` is the outcome of a reply with the given error member and result
/// member (see `reply_outcome`).
pub open spec fn reply_matches(error: Option<Option<Seq<char>>>, result: Option<JsonModel>, o: Result<serde_json::Value, McpError>) -> bool {
    match error {
        Some(m) => tool_error_text(m, o),
        None => match result {
            Some(x) => o matches Ok(v) && json_model(v) == x,
            None => o matches Err(McpError::Protocol(t)) && t@ == "response missing result"@,
        },
    }
}

/// Reads one line of the server's output while waiting for the reply to
/// request `id`: blank lines and messages with another id (or none) are
/// skipped; a line that is not JSON fails the call with the parser's
/// error; the message with the
/// id is the reply (see `reply_outcome`).
pub fn read_reply_line(line: &str, id: u64) -> (r: ReplyLine)
    ensures
        trim(line@).len() == 0 ==> r is Skip,
        trim(line@).len() > 0 ==> match json_parse(line@) {
            Err(t) => r matches ReplyLine::Reply(Err(McpError::Protocol(x))) && x@ == t,
            Ok(m) => if message_id(m) == Some(id) {
                r matches ReplyLine::Reply(o) && reply_matches(error_member(m), member(m, "result"@), o)
            } else {
                r is Skip
            },
        },
{
    let (a, b) = trim_bounds(line);
    if a == b {
        return ReplyLine::Skip;
    }
    let value = match json_from_str(line) {
        Ok(v) => v,
        Err(e) => return ReplyLine::Reply(Err(McpError::Protocol(json_error_text(&e)))),
    };
    let rid = match json_field(&value, "id") {
        Some(v) => json_as_u64(&v),
        None => None,
    };
    match rid {
        Some(x) => {
            if x != id {
                return ReplyLine::Skip;
            }
        },
        None => return ReplyLine::Skip,
    }
    let error = match json_field(&value, "error") {
        Some(err) => Some(
            match json_field(&err, "message") {
                Some(m) => json_as_str(&m),
                None => None,
            },
        ),
        None => None,
    };
    let result = json_field(&value, "result");
    let out = reply_outcome(error, result);
    proof {
        let m = json_model(value);
        if error is Some {
            let mm = error->Some_0;
            assert(error_member(m) == Some(match mm { Some(x) => Some(x@), None => None::<Seq<char>> }));
        } else {
            assert(error_member(m) is None);
            if result is Some {
                assert(member(m, "result"@) == Some(json_model(result->Some_0)));
            }
        }
    }
    ReplyLine::Reply(out)
}

/// The error when no reply came within `MAX_REPLY_LINES` lines.
pub fn no_reply_error(id: u64) -> (r: McpError)
    ensures
        r matches McpError::Protocol(t) && t@ == "no response for id "@ + decimal(id as nat),
{
    let n = decimal_string(id);
    McpError::Protocol(concat2("no response for id ", n.as_str()))
}

/// The text of a `tools/call` result, given its `isError` flag, the `text`
/// string of each item of its `content` array (`None` for an item without
/// one; the whole list `None` when there is no such array) and the result
/// as compact JSON.
pub open spec fn tool_text(is_error: Option<bool>, texts: Option<Seq<Option<Seq<char>>>>, rendered: Seq<char>) -> Result<Seq<char>, Seq<char>> {
    if is_error == Some(true) {
        Err(match texts {
            Some(t) => if t.len() > 0 && t[0] is Some {
                t[0]->Some_0
            } else {
                "mcp tool returned error"@
            },
            None => "mcp tool returned error"@,
        })
    } else {
        let parts = match texts {
            Some(t) => present_texts(t),
            None => Seq::empty(),
        };
        if parts.len() == 0 {
            Ok(rendered)
        } else {
            Ok(joined(parts, "\n"@))
        }
    }
}

/// `r` is the outcome `t` describes: the text, or a tool error with it.
pub open spec fn text_outcome(t: Result<Seq<char>, Seq<char>>, r: Result<String, McpError>) -> bool {
    match t {
        Ok(s) => r matches Ok(x) && x@ == s,
        Err(s) => r matches Err(McpError::Tool(x)) && x@ == s,
    }
}

/// The texts that are present, in order.
pub open spec fn present_texts(t: Seq<Option<Seq<char>>>) -> Seq<Seq<char>>
    decreases t.len(),
{
    if t.len() == 0 {
        Seq::empty()
    } else {
        let rest = present_texts(t.drop_last());
        match t.last() {
            Some(s) => rest.push(s),
            None => rest,
        }
    }
}

/// The character views of a list of optional strings.
pub open spec fn opt_views(t: Seq<Option<String>>) -> Seq<Option<Seq<char>>> {
    t.map_values(|o: Option<String>| match o {
        Some(x) => Some(x@),
        None => None,
    })
}

/// The `isError` flag of a `tools/call` result.
pub open spec fn error_flag(m: JsonModel) -> Option<bool> {
    match member(m, "isError"@) {
        Some(v) => as_bool_of(v),
        None => None,
    }
}

/// The `text` string of each item of the `content` array of a result.
pub open spec fn content_texts(m: JsonModel) -> Option<Seq<Option<Seq<char>>>> {
    match member(m, "content"@) {
        Some(c) => match as_array_of(c) {
            Some(items) => Some(items.map_values(|it: JsonModel| str_member(it, "text"@))),
            None => None,
        },
        None => None,
    }
}

/// Decides the text of a `tools/call` result from its parts (see
/// `tool_text`): an error result gives a tool error with the first item's
/// text; otherwise the item texts joined by newlines, or the whole result
/// when there is none.
pub fn tool_text_from(is_error: Option<bool>, texts: Option<Vec<Option<String>>>, rendered: String) -> (r: Result<String, McpError>)
    ensures
        text_outcome(tool_text(is_error, match texts { Some(t) => Some(opt_views(t@)), None => None }, rendered@), r),
{
    proof {
        reveal_strlit("\n");
    }
    if is_error == Some(true) {
        let msg = match &texts {
            Some(t) => if t.len() > 0 {
                match &t[0] {
                    Some(s) => s.clone(),
                    None => owned("mcp tool returned error"),
                }
            } else {
                owned("mcp tool returned error")
            },
            None => owned("mcp tool returned error"),
        };
        return Err(McpError::Tool(msg));
    }
    let mut parts: Vec<String> = Vec::new();
    match &texts {
        Some(t) => {
            let mut i: usize = 0;
            while i < t.len()
                invariant
                    i <= t.len(),
                    views(parts@) == present_texts(opt_views(t@).subrange(0, i as int)),
                decreases t.len() - i,
            {
                let ghost before = parts@;
                match &t[i] {
                    Some(s) => parts.push(s.clone()),
                    None => {},
                }
                proof {
                    assert(opt_views(t@).subrange(0, i + 1).drop_last() =~= opt_views(t@).subrange(0, i as int));
                    assert(views(parts@) =~= present_texts(opt_views(t@).subrange(0, i + 1)));
                }
                i = i + 1;
            }
            proof {
                assert(opt_views(t@).subrange(0, i as int) =~= opt_views(t@));
            }
        },
        None => {},
    }
    if parts.len() == 0 {
        Ok(rendered)
    } else {
        Ok(join_with(&parts, "\n"))
    }
}

/// The text of a `tools/call` result: `tool_text` of its `isError` flag,
/// the `text` strings of its `content` items and its compact JSON.
pub fn extract_tool_text(result: &serde_json::Value) -> (r: Result<String, McpError>)
    ensures
        text_outcome(tool_text(error_flag(json_model(*result)), content_texts(json_model(*result)),
            json_compact_text(json_model(*result))), r),
{
    let is_error = match json_field(result, "isError") {
        Some(v) => json_as_bool(&v),
        None => None,
    };
    let texts = match json_field(result, "content") {
        Some(c) => match json_as_array(&c) {
            Some(items) => {
                let ghost ms = json_models(items@);
                let mut out: Vec<Option<String>> = Vec::new();
                let mut i: usize = 0;
                while i < items.len()
                    invariant
                        i <= items.len(),
                        ms == json_models(items@),
                        out@.len() == i,
                        opt_views(out@) =~= ms.subrange(0, i as int).map_values(|it: JsonModel| str_member(it, "text"@)),
                    decreases items.len() - i,
                {
                    let f = json_field(&items[i], "text");
                    let t = match &f {
                        Some(x) => json_as_str(x),
                        None => None,
                    };
                    let ghost before = out@;
                    let ghost tv: Option<Seq<char>> = opt_views(seq![t])[0];
                    out.push(t);
                    proof {
                        assert(ms.len() == items@.len());
                        assert(ms[i as int] == json_model(items@[i as int]));
                        assert(tv == str_member(ms[i as int], "text"@));
                        assert(opt_views(out@)[i as int] == tv);
                        assert forall|k: int| 0 <= k < i implies opt_views(out@)[k] == opt_views(before)[k] by {
                            assert(out@[k] == before[k]);
                        }
                        let want = ms.subrange(0, i + 1).map_values(|it: JsonModel| str_member(it, "text"@));
                        let had = ms.subrange(0, i as int).map_values(|it: JsonModel| str_member(it, "text"@));
                        assert forall|k: int| 0 <= k < i + 1 implies opt_views(out@)[k] == want[k] by {
                            if k < i {
                                assert(opt_views(before)[k] == had[k]);
                            }
                        }
                        assert(opt_views(out@) =~= want);
                    }
                    i = i + 1;
                }
                proof {
                    assert(ms.subrange(0, i as int) =~= ms);
                }
                Some(out)
            },
            None => None,
        },
        None => None,
    };
    let rendered = json_compact(result);
    let r = tool_text_from(is_error, texts, rendered);
    r
}

/// The error when a call outlives its timeout.
pub fn call_timeout_error(tool_name: &str, timeout_secs: u64) -> (r: McpError)
    ensures
        r matches McpError::Timeout(t) && t@ == "mcp call "@ + tool_name@ + " exceeded "@ + decimal(timeout_secs as nat) + "s"@,
{
    let n = decimal_string(timeout_secs);
    let a = concat2("mcp call ", tool_name);
    let b = concat2(a.as_str(), " exceeded ");
    let c = concat2(b.as_str(), n.as_str());
    McpError::Timeout(concat2(c.as_str(), "s"))
}

/// How the exchange with an MCP server ended.
#[derive(Debug)]
pub enum CallEnd {
    /// The server answered (or the exchange failed) within the timeout.
    Answered(Result<String, McpError>),
    /// The timeout ran out first.
    TimedOut,
}

/// The result of an isolated call once its server was stopped: a timeout
/// or a failed exchange is the call's error; an answer carries the output,
/// the server's pid, the call's duration (also stamped on the resources as
/// its runtime) and the isolation report.
pub fn finish_call(
    end: CallEnd,
    tool_name: &str,
    timeout_secs: u64,
    pid: Option<u32>,
    duration_ms: u64,
    resources: crate::metrics::ResourceMetrics,
    limits: &crate::isolation::IsolationLimits,
    cgroup: Option<String>,
    cgroup_warnings: Vec<String>,
) -> (r: Result<crate::client::McpCallResult, McpError>)
    ensures
        end is TimedOut ==> (r matches Err(McpError::Timeout(t))
            && t@ == "mcp call "@ + tool_name@ + " exceeded "@ + decimal(timeout_secs as nat) + "s"@),
        end matches CallEnd::Answered(Err(e)) ==> r == Err::<crate::client::McpCallResult, McpError>(e),
        end matches CallEnd::Answered(Ok(out)) ==> (r matches Ok(c) && c.output == out && c.pid == pid
            && c.duration_ms == duration_ms
            && c.resources == (crate::metrics::ResourceMetrics { runtime_ms: Some(duration_ms), ..resources })
            && crate::isolation::is_report(c.isolation, *limits, cgroup,
                crate::isolation::call_warnings(*limits, cgroup, cgroup_warnings@))),
{
    match end {
        CallEnd::TimedOut => Err(call_timeout_error(tool_name, timeout_secs)),
        CallEnd::Answered(Err(e)) => Err(e),
        CallEnd::Answered(Ok(output)) => Ok(crate::client::McpCallResult {
            output,
            pid,
            duration_ms,
            resources: resources.with_runtime(duration_ms),
            isolation: crate::isolation::call_isolation_report(limits, cgroup, cgroup_warnings),
        }),
    }
}

} // verus!
