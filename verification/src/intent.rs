//! Intents from the nervous-system layer: the v2 poly-intent envelope
//! (`tool.execute`, `mcp.proxy`, `plan.only`) and the v1 legacy envelope.

use vstd::prelude::*;
use crate::error::RmngError;
use crate::json::{json_valid, json_parse, member, JsonModel};
use crate::text::{concat2, str_equal};

verus! {

#[verifier::external_type_specification]
#[verifier::external_body]
pub struct ExJsonValue(serde_json::Value);

#[verifier::external_type_specification]
#[verifier::external_body]
pub struct ExUuid(uuid::Uuid);

/// `Value::clone` (derived in serde_json) copies the whole tree, so the copy
/// is the same value.
pub assume_specification[ <serde_json::Value as Clone>::clone ](v: &serde_json::Value) -> (r: serde_json::Value)
    ensures
        r == *v,
;

/// `Uuid` is a plain 16-byte value (`#[derive(Clone, Copy)]` in uuid), so its
/// clone is the same value.
pub assume_specification[ <uuid::Uuid as Clone>::clone ](u: &uuid::Uuid) -> (r: uuid::Uuid)
    ensures
        r == *u,
;

/// Core intent schema version carried by v2 envelopes.
pub const CORE_INTENT_SCHEMA_VERSION: &'static str = "2";

/// Correlation and orchestration context carried on any intent.
#[derive(Debug, Clone, PartialEq, Eq)]
pub struct Metadata {
    pub trace_id: Option<String>,
    pub skill_name: Option<String>,
    pub session_id: Option<String>,
    pub handoff_from: Option<String>,
    pub handoff_to: Option<String>,
    pub handoff_chain: Option<Vec<String>>,
    pub handoff_return_to: Option<String>,
    pub chain_id: Option<String>,
    pub hop_failure_policy: Option<String>,
    pub hop_retry_max: Option<u32>,
}

/// Poly-intent: a native tool, an MCP proxy call, or reasoning only.
#[derive(Debug, Clone, PartialEq)]
pub enum CoreIntent {
    /// Execute a native RMNG tool through the permission gate.
    ToolExecute { target: String, parameters: serde_json::Value, metadata: Option<Metadata> },
    /// Proxy an allowlisted MCP server tool.
    McpProxy {
        mcp_server: String,
        mcp_tool: String,
        mcp_args: serde_json::Value,
        metadata: Option<Metadata>,
    },
    /// Reasoning-only transition; nothing is executed.
    PlanOnly { reasoning: String, metadata: Option<Metadata> },
}

/// The metadata of any variant.
pub open spec fn spec_metadata(i: CoreIntent) -> Option<Metadata> {
    match i {
        CoreIntent::ToolExecute { metadata, .. } => metadata,
        CoreIntent::McpProxy { metadata, .. } => metadata,
        CoreIntent::PlanOnly { metadata, .. } => metadata,
    }
}

impl CoreIntent {
    pub fn is_executable(&self) -> (r: bool)
        ensures
            r == !(self is PlanOnly),
    {
        match self {
            CoreIntent::ToolExecute { .. } | CoreIntent::McpProxy { .. } => true,
            CoreIntent::PlanOnly { .. } => false,
        }
    }

    pub fn metadata(&self) -> (r: Option<&Metadata>)
        ensures
            r is Some <==> spec_metadata(*self) is Some,
            r matches Some(m) ==> spec_metadata(*self) == Some(*m),
    {
        match self {
            CoreIntent::ToolExecute { metadata, .. }
            | CoreIntent::McpProxy { metadata, .. }
            | CoreIntent::PlanOnly { metadata, .. } => metadata.as_ref(),
        }
    }
}

/// Kind of a v1 intent.
#[derive(Debug, Clone, Copy, PartialEq, Eq, Structural)]
pub enum IntentKind {
    Plan,
    ToolRequest,
    Clarify,
    Complete,
}

/// A native tool call inside a v1 intent.
#[derive(Debug, Clone, PartialEq)]
pub struct ToolRequest {
    pub name: String,
    pub args: serde_json::Value,
}

/// Legacy v1 intent envelope. It never holds a shell command.
#[derive(Debug, Clone, PartialEq)]
pub struct Intent {
    pub schema_version: String,
    pub intent_id: uuid::Uuid,
    pub kind: IntentKind,
    pub summary: String,
    pub tool: Option<ToolRequest>,
}

impl Intent {
    /// The check that follows decoding a v1 intent: only schema version `1`
    /// is accepted.
    pub fn accept_parsed(intent: Intent) -> (r: Result<Intent, RmngError>)
        ensures
            intent.schema_version@ == "1"@ ==> r == Ok::<Intent, RmngError>(intent),
            intent.schema_version@ != "1"@ ==> (r matches Err(RmngError::InvalidIntent(m))
                && m@ == "unsupported schema_version: "@ + intent.schema_version@),
    {
        if !str_equal(intent.schema_version.as_str(), "1") {
            let m = concat2("unsupported schema_version: ", intent.schema_version.as_str());
            return Err(RmngError::InvalidIntent(m));
        }
        Ok(intent)
    }
}

/// IPC envelope: a v1 legacy intent or a v2 core intent.
#[derive(Debug, Clone)]
pub enum IncomingIntent {
    V1(Intent),
    Core(CoreIntent),
}

/// Which envelope an IPC payload holds.
#[derive(Debug, Clone, Copy, PartialEq, Eq, Structural)]
pub enum EnvelopeVersion {
    /// A v1 intent.
    V1,
    /// A v2 core intent (it has an `action` member).
    Core,
}

/// The envelope a JSON payload holds: a v2 core intent when it has an
/// `action` member, else a v1 intent.
pub open spec fn spec_envelope_version(m: JsonModel) -> EnvelopeVersion {
    if member(m, "action"@) is Some {
        EnvelopeVersion::Core
    } else {
        EnvelopeVersion::V1
    }
}

/// Tells the envelopes of an IPC payload apart: JSON with an `action`
/// member is a v2 core intent, any other JSON a v1 intent; text that is
/// not JSON is refused with the parser's error.
pub fn envelope_version(json: &str) -> (r: Result<EnvelopeVersion, RmngError>)
    ensures
        r is Err ==> r matches Err(RmngError::Serde(_)),
        r is Err <==> !json_valid(json@),
        json_parse(json@) matches Ok(m) ==> r == Ok::<EnvelopeVersion, RmngError>(spec_envelope_version(m)),
{
    match crate::json::json_from_str(json) {
        Err(e) => Err(RmngError::Serde(e)),
        Ok(v) => match crate::json::json_field(&v, "action") {
            Some(_) => Ok(EnvelopeVersion::Core),
            None => Ok(EnvelopeVersion::V1),
        },
    }
}

} // verus!
