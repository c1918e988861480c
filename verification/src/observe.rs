//! The lines of the runtime overview (`rmng observe`): tools and their
//! handlers, the MCP allowlist, token use of sessions and the audit tail.

use vstd::prelude::*;
use crate::allowlist::McpServerConfig;
use crate::audit::{spec_track_label, AuditTrack};
use crate::text::{concat2, concat3, concat4, decimal, decimal_string, join_with, joined, owned, views};

verus! {

/// Audit entries shown at the end of the overview.
pub const AUDIT_TAIL: usize = 8;

/// Token counts reported for one LLM call.
#[derive(Debug, Clone, Copy, PartialEq, Eq, Structural)]
pub struct TokenCounts {
    pub prompt: Option<u32>,
    pub completion: Option<u32>,
    pub total: Option<u32>,
}

/// The tokens a call counts for: its total, else prompt plus completion
/// when both are known, else none.
pub open spec fn spec_call_tokens(c: TokenCounts) -> int {
    match c.total {
        Some(t) => t as int,
        None => match (c.prompt, c.completion) {
            (Some(p), Some(q)) => p + q,
            _ => 0,
        },
    }
}

/// Prompt plus completion fits the counter the calls are summed in.
pub open spec fn counts_fit(c: TokenCounts) -> bool {
    c.total is Some || match (c.prompt, c.completion) {
        (Some(p), Some(q)) => p + q <= u32::MAX,
        _ => true,
    }
}

/// The tokens of the calls, summed.
pub open spec fn spec_tokens_sum(calls: Seq<TokenCounts>) -> int
    decreases calls.len(),
{
    if calls.len() == 0 {
        0
    } else {
        spec_tokens_sum(calls.drop_last()) + spec_call_tokens(calls.last())
    }
}

proof fn lemma_prefix_sum_le(calls: Seq<TokenCounts>, i: int)
    requires
        0 <= i <= calls.len(),
    ensures
        0 <= spec_tokens_sum(calls.subrange(0, i)) <= spec_tokens_sum(calls),
    decreases calls.len() - i,
{
    if i == calls.len() {
        assert(calls.subrange(0, i) =~= calls);
        lemma_sum_nonneg(calls);
    } else {
        lemma_prefix_sum_le(calls, i + 1);
        assert(calls.subrange(0, i + 1).drop_last() =~= calls.subrange(0, i));
        lemma_sum_nonneg(calls.subrange(0, i));
    }
}

proof fn lemma_sum_nonneg(calls: Seq<TokenCounts>)
    ensures
        spec_tokens_sum(calls) >= 0,
    decreases calls.len(),
{
    if calls.len() > 0 {
        lemma_sum_nonneg(calls.drop_last());
    }
}

/// The total tokens of a session's calls.
pub fn session_tokens(calls: &Vec<TokenCounts>) -> (r: u64)
    requires
        forall|i: int| 0 <= i < calls@.len() ==> counts_fit(#[trigger] calls@[i]),
        spec_tokens_sum(calls@) <= u64::MAX,
    ensures
        r == spec_tokens_sum(calls@),
{
    let mut sum: u64 = 0;
    let mut i: usize = 0;
    while i < calls.len()
        invariant
            i <= calls.len(),
            forall|k: int| 0 <= k < calls@.len() ==> counts_fit(#[trigger] calls@[k]),
            spec_tokens_sum(calls@) <= u64::MAX,
            sum == spec_tokens_sum(calls@.subrange(0, i as int)),
        decreases calls.len() - i,
    {
        let c = calls[i];
        proof {
            assert(calls@.subrange(0, i + 1).drop_last() =~= calls@.subrange(0, i as int));
            lemma_prefix_sum_le(calls@, i + 1);
        }
        let add: u64 = match c.total {
            Some(t) => t as u64,
            None => match (c.prompt, c.completion) {
                (Some(p), Some(q)) => (p + q) as u64,
                _ => 0,
            },
        };
        assert(spec_tokens_sum(calls@.subrange(0, i + 1)) == sum + add);
        sum = sum + add;
        i = i + 1;
    }
    proof {
        assert(calls@.subrange(0, i as int) =~= calls@);
    }
    sum
}

/// The total tokens of a session's calls when every call's count fits and
/// the total fits a `u64`; none otherwise (the overview then shows `-`).
pub fn session_tokens_if_fit(calls: &Vec<TokenCounts>) -> (r: Option<u64>)
    ensures
        ((forall|i: int| 0 <= i < calls@.len() ==> counts_fit(#[trigger] calls@[i]))
            && spec_tokens_sum(calls@) <= u64::MAX) ==> r == Some(spec_tokens_sum(calls@) as u64),
        !((forall|i: int| 0 <= i < calls@.len() ==> counts_fit(#[trigger] calls@[i]))
            && spec_tokens_sum(calls@) <= u64::MAX) ==> r is None,
{
    let mut i: usize = 0;
    while i < calls.len()
        invariant
            i <= calls.len(),
            forall|k: int| 0 <= k < i ==> counts_fit(#[trigger] calls@[k]),
        decreases calls.len() - i,
    {
        let c = calls[i];
        if c.total.is_none() {
            match (c.prompt, c.completion) {
                (Some(p), Some(q)) => {
                    if p.checked_add(q).is_none() {
                        assert(!counts_fit(calls@[i as int]));
                        return None;
                    }
                },
                _ => {},
            }
        }
        i = i + 1;
    }
    let mut sum: u64 = 0;
    let mut i: usize = 0;
    while i < calls.len()
        invariant
            i <= calls.len(),
            forall|k: int| 0 <= k < calls@.len() ==> counts_fit(#[trigger] calls@[k]),
            sum == spec_tokens_sum(calls@.subrange(0, i as int)),
        decreases calls.len() - i,
    {
        let c = calls[i];
        proof {
            assert(calls@.subrange(0, i + 1).drop_last() =~= calls@.subrange(0, i as int));
            lemma_prefix_sum_le(calls@, i + 1);
        }
        let add: u64 = match c.total {
            Some(t) => t as u64,
            None => match (c.prompt, c.completion) {
                (Some(p), Some(q)) => (p + q) as u64,
                _ => 0,
            },
        };
        assert(spec_tokens_sum(calls@.subrange(0, i + 1)) == sum + add);
        match sum.checked_add(add) {
            Some(x) => sum = x,
            None => return None,
        }
        i = i + 1;
    }
    proof {
        assert(calls@.subrange(0, i as int) =~= calls@);
    }
    Some(sum)
}

/// How a call's tokens are shown.
pub open spec fn spec_tokens_label(c: TokenCounts) -> Seq<char> {
    match (c.prompt, c.completion, c.total) {
        (Some(p), Some(q), _) => "tokens="@ + decimal(p as nat) + "+"@ + decimal(q as nat),
        (_, _, Some(t)) => "tokens="@ + decimal(t as nat),
        _ => "tokens=-"@,
    }
}

pub fn tokens_label(c: &TokenCounts) -> (r: String)
    ensures
        r@ == spec_tokens_label(*c),
{
    match (c.prompt, c.completion, c.total) {
        (Some(p), Some(q), _) => {
            let a = decimal_string(p as u64);
            let b = decimal_string(q as u64);
            concat4("tokens=", a.as_str(), "+", b.as_str())
        },
        (_, _, Some(t)) => {
            let a = decimal_string(t as u64);
            concat2("tokens=", a.as_str())
        },
        _ => owned("tokens=-"),
    }
}

/// The note of a call answered by a fallback provider (empty for the first).
pub fn fallback_note(index: u32) -> (r: String)
    ensures
        index == 0 ==> r@ == Seq::<char>::empty(),
        index > 0 ==> r@ == " fallback#"@ + decimal(index as nat),
{
    if index > 0 {
        let n = decimal_string(index as u64);
        concat2(" fallback#", n.as_str())
    } else {
        String::new()
    }
}

/// The tag of a manifest tool: whether a handler is registered for it.
pub fn handler_tag(has_handler: bool) -> (r: &'static str)
    ensures
        r@ == if has_handler { "handler"@ } else { "manifest-only"@ },
{
    if has_handler {
        "handler"
    } else {
        "manifest-only"
    }
}

/// The line of one allowlisted MCP server.
pub open spec fn spec_server_line(name: Seq<char>, c: McpServerConfig) -> Seq<char> {
    name + " ["@ + (if c.enabled { "enabled"@ } else { "disabled"@ }) + "] "@ + c.command@ + " \u{2014} tools: "@
        + joined(views(c.allowed_tools@), ", "@)
}

pub fn server_line(name: &str, c: &McpServerConfig) -> (r: String)
    ensures
        r@ == spec_server_line(name@, *c),
{
    let state = if c.enabled { "enabled" } else { "disabled" };
    let tools = join_with(&c.allowed_tools, ", ");
    let a = concat4(name, " [", state, "] ");
    let b = concat3(a.as_str(), c.command.as_str(), " \u{2014} tools: ");
    concat2(b.as_str(), tools.as_str())
}

/// The line of an audit entry after its time: outcome, action, track (`-`
/// when none), duration (`-` when none) and detail.
pub open spec fn spec_audit_line(outcome: Seq<char>, action: Seq<char>, track: Option<AuditTrack>, duration_ms: Option<u64>, detail: Option<Seq<char>>) -> Seq<char> {
    outcome + " "@ + action + " "@ + (match track { Some(t) => spec_track_label(t), None => "-"@ }) + " "@
        + (match duration_ms { Some(d) => decimal(d as nat) + "ms"@, None => "-"@ }) + " \u{2014} "@
        + (match detail { Some(d) => d, None => Seq::empty() })
}

pub fn audit_line(outcome: &str, action: &str, track: Option<AuditTrack>, duration_ms: Option<u64>, detail: Option<&str>) -> (r: String)
    ensures
        r@ == spec_audit_line(outcome@, action@, track, duration_ms, match detail { Some(d) => Some(d@), None => None }),
{
    let t = match track {
        Some(x) => crate::audit::audit_track_label(x),
        None => owned("-"),
    };
    let d = match duration_ms {
        Some(ms) => {
            let n = decimal_string(ms);
            concat2(n.as_str(), "ms")
        },
        None => owned("-"),
    };
    let a = concat4(outcome, " ", action, " ");
    let b = concat4(a.as_str(), t.as_str(), " ", d.as_str());
    let tail = match detail {
        Some(x) => x,
        None => "",
    };
    proof {
        reveal_strlit("");
    }
    let r = concat3(b.as_str(), " \u{2014} ", tail);
    proof {
        if detail is None {
            assert(tail@ =~= Seq::<char>::empty());
        }
    }
    r
}

} // verus!
