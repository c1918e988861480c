//! The permission gate: native tools must be in the integration allowlist,
//! MCP proxy calls must name an enabled server and one of its listed tools.

use vstd::prelude::*;
use crate::allowlist::{McpAllowlist, McpServerConfig};
use crate::intent::{CoreIntent, Intent, IntentKind};
use crate::order::{same_names, strictly_sorted};
use crate::registry::{tool_names, IntegrationRegistry};
use crate::text::{concat2, concat4, contains_name, names_contain, owned, views};

verus! {

/// What the permission check decides about an intent.
#[derive(Debug, Clone, PartialEq, Eq)]
pub enum PermissionVerdict {
    Allow,
    Deny(String),
}

/// The reason of a denial, or none when the verdict allows.
pub open spec fn denial(v: PermissionVerdict) -> Option<Seq<char>> {
    match v {
        PermissionVerdict::Allow => None,
        PermissionVerdict::Deny(m) => Some(m@),
    }
}

/// A native tool is allowed when it is one of the allowed tool names.
pub open spec fn tool_denial(allowed: Seq<String>, name: Seq<char>) -> Option<Seq<char>> {
    if names_contain(allowed, name) {
        None
    } else {
        Some("tool not allowed: "@ + name)
    }
}

/// An MCP call is allowed when its server is configured, enabled, and lists the tool.
pub open spec fn mcp_denial(list: McpAllowlist, server: Seq<char>, tool: Seq<char>) -> Option<Seq<char>> {
    match list.lookup(server) {
        None => Some("mcp server not configured: "@ + server),
        Some(c) => if !c.enabled {
            Some("mcp server disabled: "@ + server)
        } else if !names_contain(c.allowed_tools@, tool) {
            Some("mcp tool not allowed: "@ + server + "."@ + tool)
        } else {
            None
        },
    }
}

/// Gate holding the native tool allowlist and the MCP allowlist.
#[derive(Clone)]
pub struct PermissionGate {
    allowed_tools: Vec<String>,
    mcp_allowlist: McpAllowlist,
}

impl PermissionGate {
    pub closed spec fn spec_allowed_tools(&self) -> Seq<String> {
        self.allowed_tools@
    }

    pub closed spec fn spec_mcp_allowlist(&self) -> McpAllowlist {
        self.mcp_allowlist
    }

    /// Verdict for a v1 intent: plans, clarifications and completions pass;
    /// a tool request needs its tool to be allowed.
    pub open spec fn intent_denial(&self, intent: Intent) -> Option<Seq<char>> {
        match intent.kind {
            IntentKind::ToolRequest => match intent.tool {
                None => Some("tool_request missing tool field"@),
                Some(t) => tool_denial(self.spec_allowed_tools(), t.name@),
            },
            _ => None,
        }
    }

    /// Verdict for a v2 intent: plan-only passes; a native call needs an
    /// allowed tool; a proxy call needs an allowlisted MCP tool.
    pub open spec fn core_denial(&self, intent: CoreIntent) -> Option<Seq<char>> {
        match intent {
            CoreIntent::PlanOnly { .. } => None,
            CoreIntent::ToolExecute { target, .. } => tool_denial(self.spec_allowed_tools(), target@),
            CoreIntent::McpProxy { mcp_server, mcp_tool, .. } => mcp_denial(
                self.spec_mcp_allowlist(),
                mcp_server@,
                mcp_tool@,
            ),
        }
    }

    /// Gate over the given native tool names. Its MCP allowlist is empty;
    /// the configured allowlist is read from disk by the caller and attached
    /// with `with_mcp_allowlist`.
    pub fn new(allowed_tools: Vec<String>) -> (r: Self)
        ensures
            r.spec_allowed_tools() == allowed_tools@,
            forall|n: Seq<char>| r.spec_mcp_allowlist().lookup(n) is None,
    {
        PermissionGate { allowed_tools, mcp_allowlist: McpAllowlist::new() }
    }

    /// Gate whose native tools are those the integration manifests declare,
    /// in increasing name order, with the given MCP allowlist (the caller
    /// reads it from disk; an unreadable file gives the empty allowlist).
    pub fn from_registry(registry: &IntegrationRegistry, allowlist: McpAllowlist) -> (r: Self)
        ensures
            r.spec_allowed_tools().len() == registry.spec_tools().len(),
            strictly_sorted(views(r.spec_allowed_tools())),
            same_names(views(r.spec_allowed_tools()), tool_names(registry.spec_tools())),
            r.spec_mcp_allowlist() == allowlist,
    {
        PermissionGate { allowed_tools: registry.allowed_tool_names(), mcp_allowlist: allowlist }
    }

    pub fn allowed_tools(&self) -> (r: &[String])
        ensures
            r@ == self.spec_allowed_tools(),
    {
        self.allowed_tools.as_slice()
    }

    pub fn with_mcp_allowlist(self, allowlist: McpAllowlist) -> (r: Self)
        ensures
            r.spec_mcp_allowlist() == allowlist,
            r.spec_allowed_tools() == self.spec_allowed_tools(),
    {
        let mut s = self;
        s.mcp_allowlist = allowlist;
        s
    }

    pub fn mcp_allowlist(&self) -> (r: &McpAllowlist)
        ensures
            *r == self.spec_mcp_allowlist(),
    {
        &self.mcp_allowlist
    }

    pub fn mcp_server_config(&self, server: &str) -> (r: Option<&McpServerConfig>)
        ensures
            r is Some <==> (self.spec_mcp_allowlist().lookup(server@) matches Some(c) && c.enabled),
            r matches Some(c) ==> self.spec_mcp_allowlist().lookup(server@) == Some(*c),
    {
        self.mcp_allowlist.server_config(server)
    }

    pub fn evaluate(&self, intent: &Intent) -> (r: PermissionVerdict)
        ensures
            denial(r) == self.intent_denial(*intent),
    {
        match intent.kind {
            IntentKind::Plan | IntentKind::Clarify | IntentKind::Complete => PermissionVerdict::Allow,
            IntentKind::ToolRequest => match &intent.tool {
                None => PermissionVerdict::Deny(owned("tool_request missing tool field")),
                Some(tool) => self.evaluate_tool_name(tool.name.as_str()),
            },
        }
    }

    pub fn evaluate_core(&self, intent: &CoreIntent) -> (r: PermissionVerdict)
        ensures
            denial(r) == self.core_denial(*intent),
    {
        match intent {
            CoreIntent::PlanOnly { .. } => PermissionVerdict::Allow,
            CoreIntent::ToolExecute { target, .. } => self.evaluate_tool_name(target.as_str()),
            CoreIntent::McpProxy { mcp_server, mcp_tool, .. } => self.evaluate_mcp(
                mcp_server.as_str(),
                mcp_tool.as_str(),
            ),
        }
    }

    fn evaluate_tool_name(&self, name: &str) -> (r: PermissionVerdict)
        ensures
            denial(r) == tool_denial(self.spec_allowed_tools(), name@),
    {
        if contains_name(&self.allowed_tools, name) {
            PermissionVerdict::Allow
        } else {
            PermissionVerdict::Deny(concat2("tool not allowed: ", name))
        }
    }

    pub fn evaluate_mcp(&self, server: &str, tool: &str) -> (r: PermissionVerdict)
        ensures
            denial(r) == mcp_denial(self.spec_mcp_allowlist(), server@, tool@),
    {
        match self.mcp_allowlist.get(server) {
            None => PermissionVerdict::Deny(concat2("mcp server not configured: ", server)),
            Some(cfg) => {
                if !cfg.enabled {
                    PermissionVerdict::Deny(concat2("mcp server disabled: ", server))
                } else if !contains_name(&cfg.allowed_tools, tool) {
                    PermissionVerdict::Deny(concat4("mcp tool not allowed: ", server, ".", tool))
                } else {
                    PermissionVerdict::Allow
                }
            },
        }
    }
}

/// An MCP proxy call is allowed exactly when the allowlist allows its tool
/// on its server.
pub proof fn law_mcp_verdict_is_allowlist(list: McpAllowlist, server: Seq<char>, tool: Seq<char>)
    ensures
        (mcp_denial(list, server, tool) is None) == list.spec_tool_allowed(server, tool),
{
}

/// A v1 tool request and a v2 `tool.execute` of the same tool get the same verdict.
pub proof fn law_v1_and_v2_agree(gate: PermissionGate, v1: Intent, v2: CoreIntent)
    requires
        v1.kind == IntentKind::ToolRequest,
        v1.tool matches Some(t) && v2 matches CoreIntent::ToolExecute { target, .. } && t.name@ == target@,
    ensures
        gate.intent_denial(v1) == gate.core_denial(v2),
{
}

/// Reasoning-only intents are never denied, in either envelope.
pub proof fn law_plans_always_pass(gate: PermissionGate, v1: Intent, v2: CoreIntent)
    requires
        v1.kind != IntentKind::ToolRequest,
        v2 is PlanOnly,
    ensures
        gate.intent_denial(v1) is None,
        gate.core_denial(v2) is None,
{
}

/// Attaching an allowlist does not change native-tool verdicts.
pub proof fn law_allowlist_does_not_touch_native(before: PermissionGate, after: PermissionGate, v2: CoreIntent)
    requires
        after.spec_allowed_tools() == before.spec_allowed_tools(),
        v2 is ToolExecute,
    ensures
        after.core_denial(v2) == before.core_denial(v2),
{
}

} // verus!
