//! RMNG-OS agent runtime: intents, the permission gate, orchestration
//! state, MCP isolation policy and resource accounting, each with a
//! verified contract.

pub mod agent_session;
pub mod allowlist;
pub mod audit;
pub mod budget;
pub mod capabilities;
pub mod client;
pub mod config;
pub mod continuation;
pub mod daemon_request;
pub mod error;
pub mod intent;
pub mod isolation;
pub mod json;
pub mod keyed;
pub mod mcp_protocol;
pub mod mcp_session;
pub mod metrics;
pub mod numbers;
pub mod observe;
pub mod orchestration;
pub mod order;
pub mod paths;
pub mod permission;
pub mod readiness;
pub mod registry;
pub mod report;
pub mod resource_rollup;
pub mod runtime;
pub mod seccomp;
pub mod session;
pub mod text;
pub mod tool;
pub mod tools;
pub mod validator;

pub use agent_session::{ActiveAgentSlot, AgentSession, ContextValue, HandoffRecord, TaskState};
pub use allowlist::{McpAllowlist, McpServerConfig};
pub use audit::{audit_track_label, AuditLog, AuditTrack};
pub use budget::BudgetLevel;
pub use capabilities::drop_all_capabilities;
pub use client::{wire_tool_name, McpCallResult};
pub use config::{LlmConfig, LlmProviderKind, RmngConfig};
pub use continuation::{ChainContinuation, ContinuationStatus, DEFAULT_CONTINUATION_PROMPT};
pub use daemon_request::{DaemonLine, OrchestrationContinueResponse};
pub use error::{McpError, RmngError};
pub use intent::{envelope_version, CoreIntent, EnvelopeVersion, IncomingIntent, Intent, IntentKind, Metadata, ToolRequest, CORE_INTENT_SCHEMA_VERSION};
pub use isolation::{IsolationLimits, IsolationReport};
pub use mcp_protocol::{extract_tool_text, read_reply_line, ReplyLine};
pub use metrics::ResourceMetrics;
pub use orchestration::{parse_hop_failure_policy, HandoffChainOptions, HopFailurePolicy};
pub use permission::{PermissionGate, PermissionVerdict};
pub use registry::{IntegrationManifest, IntegrationRegistry, ToolManifest};
pub use readiness::{agent_registry_check, CheckLevel, ReadinessCheck, ReadinessReport};
pub use resource_rollup::{
    rollup_mcp_resources, EntityResource, HighResourceCall, RankedEntityResource, ResourceRollupReport,
    ResourceSample,
};
pub use runtime::{AuditDraft, Runtime, Step};
pub use seccomp::{is_high_risk_mcp_server, normalize_profile, PROFILE_BASIC, PROFILE_E2B, PROFILE_PLAYWRIGHT};
pub use session::{
    build_tool_result_record, SessionError, SessionLoadOptions, SessionStore, ToolResultRecord, DEFAULT_SESSION_TTL_DAYS,
    MAX_TOOL_OUTPUT_LEN,
};
pub use tool::{HandleResponse, ToolResult};
pub use tools::{registered_tools, validate_repo_path};
pub use validator::IntentValidator;
