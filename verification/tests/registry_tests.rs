use rmng::audit::AuditLog;
use rmng::error::{McpError, RmngError};
use rmng::intent::{CoreIntent, Intent, IntentKind, Metadata, ToolRequest};
use rmng::permission::PermissionGate;
use rmng::registry::{IntegrationManifest, IntegrationRegistry, ToolManifest};
use rmng::runtime::{Runtime, Step};
use rmng::tool::ToolResult;
use rmng::validator::{envelope_verdict, parameters_verdict, IntentValidator};
use rmng::allowlist::{McpAllowlist, McpServerConfig};
use uuid::Uuid;

fn json(raw: &str) -> serde_json::Value {
    serde_json::from_str(raw).unwrap()
}

fn tool(name: &str, params: &str) -> ToolManifest {
    ToolManifest { name: name.to_string(), description: None, parameters: json(params) }
}

fn manifest(name: &str, tools: Vec<ToolManifest>) -> IntegrationManifest {
    IntegrationManifest { name: name.to_string(), version: "0.1.0".to_string(), description: None, tools }
}

const REPO_SCHEMA: &str = r#"{"type":"object","properties":{"repo":{"type":"string"}},"additionalProperties":false}"#;
const DIFF_SCHEMA: &str =
    r#"{"type":"object","properties":{"repo":{"type":"string"},"staged":{"type":"boolean"}},"additionalProperties":false}"#;
const CORE_SCHEMA: &str = r#"{"type":"object","required":["action"],"properties":{"action":{"enum":["tool.execute","mcp.proxy","plan.only"]}}}"#;

/// The native tools of the integration manifests, as three domains.
fn fixture_manifests() -> Vec<IntegrationManifest> {
    vec![
        manifest(
            "kernel",
            vec![tool("kernel.status", "null"), tool("kernel.build", "null"), tool("kernel.apply_patches", "null")],
        ),
        manifest("git", vec![tool("git.status", REPO_SCHEMA), tool("git.diff", DIFF_SCHEMA)]),
        manifest("github", vec![tool("github.pr_status", "null")]),
    ]
}

fn fixture_registry() -> IntegrationRegistry {
    IntegrationRegistry::from_manifests("integrations", fixture_manifests()).expect("load fixtures")
}

fn validator() -> IntentValidator {
    IntentValidator::new(fixture_registry(), json(CORE_SCHEMA)).unwrap()
}

#[test]
fn loads_dev_integrations() {
    let reg = fixture_registry();
    assert!(reg.has_tool("kernel.status"));
    assert!(reg.has_tool("git.status"));
    assert!(reg.has_tool("git.diff"));
    assert!(reg.has_tool("github.pr_status"));
    let names = reg.allowed_tool_names();
    assert!(names.len() >= 6);
}

#[test]
fn tool_has_parameters_schema() {
    let reg = fixture_registry();
    let git = reg.tool("git.status").unwrap();
    assert_eq!(git.parameters.get("type").and_then(|v| v.as_str()), Some("object"));
}

#[test]
fn registry_lists_names_in_order_and_sorts_manifests() {
    let reg = fixture_registry();
    assert_eq!(
        reg.allowed_tool_names(),
        vec!["git.diff", "git.status", "github.pr_status", "kernel.apply_patches", "kernel.build", "kernel.status"]
    );
    let names: Vec<&str> = reg.manifests().iter().map(|m| m.name.as_str()).collect();
    assert_eq!(names, vec!["git", "github", "kernel"]);
    assert_eq!(reg.integrations_root(), "integrations");
    assert!(reg.tool("system.rm_rf").is_none());
    assert!(!reg.has_tool("system.rm_rf"));
}

#[test]
fn registry_keeps_manifests_of_one_name_in_order() {
    let mut first = manifest("dup", vec![tool("a.one", "null")]);
    first.version = "1".to_string();
    let mut second = manifest("dup", vec![tool("a.two", "null")]);
    second.version = "2".to_string();
    let reg = IntegrationRegistry::from_manifests("r", vec![first, manifest("abc", vec![]), second]).unwrap();
    let seen: Vec<(String, String)> = reg.manifests().iter().map(|m| (m.name.clone(), m.version.clone())).collect();
    assert_eq!(
        seen,
        vec![
            ("abc".to_string(), "0.1.0".to_string()),
            ("dup".to_string(), "1".to_string()),
            ("dup".to_string(), "2".to_string())
        ]
    );
}

#[test]
fn registry_rejects_duplicate_tool_names() {
    let ms = vec![
        manifest("git", vec![tool("git.status", "null")]),
        manifest("other", vec![tool("x.y", "null"), tool("git.status", "null")]),
    ];
    match IntegrationRegistry::from_manifests("r", ms) {
        Err(RmngError::InvalidIntent(m)) => {
            assert_eq!(m, "duplicate tool name 'git.status' in integrations manifests")
        }
        _ => panic!("duplicate accepted"),
    }
}

#[test]
fn empty_registry_has_no_tools() {
    let reg = IntegrationRegistry::from_manifests("/nonexistent", Vec::new()).unwrap();
    assert!(reg.allowed_tool_names().is_empty());
    assert!(reg.manifests().is_empty());
}

#[test]
fn gate_from_registry_allows_declared_tools() {
    let gate = PermissionGate::from_registry(&fixture_registry(), McpAllowlist::new());
    assert_eq!(gate.allowed_tools().len(), 6);
    assert_eq!(gate.allowed_tools()[0], "git.diff");
}

#[test]
fn accepts_valid_tool_execute() {
    let v = validator();
    let intent = CoreIntent::ToolExecute { target: "git.status".into(), parameters: json("{}"), metadata: None };
    let envelope = json(r#"{"action":"tool.execute","target":"git.status","parameters":{}}"#);
    assert!(v.validate(&intent, &envelope).is_ok());
}

#[test]
fn rejects_unknown_tool() {
    let v = validator();
    let intent = CoreIntent::ToolExecute { target: "system.rm_rf".into(), parameters: json("{}"), metadata: None };
    let envelope = json(r#"{"action":"tool.execute","target":"system.rm_rf","parameters":{}}"#);
    assert!(v.validate(&intent, &envelope).is_err());
    match v.validate_tool_parameters("system.rm_rf", &json("{}")) {
        Err(RmngError::InvalidIntent(m)) => {
            assert_eq!(m, "unknown native tool 'system.rm_rf' (not in integration manifests)")
        }
        _ => panic!("unknown tool accepted"),
    }
}

#[test]
fn rejects_invalid_git_diff_parameters() {
    let v = validator();
    let intent = CoreIntent::ToolExecute { target: "git.diff".into(), parameters: json(r#"{ "staged": "yes" }"#), metadata: None };
    let envelope = json(r#"{"action":"tool.execute","target":"git.diff","parameters":{"staged":"yes"}}"#);
    match v.validate(&intent, &envelope) {
        Err(RmngError::InvalidIntent(m)) => assert!(m.starts_with("tool 'git.diff' parameters invalid: ")),
        _ => panic!("invalid parameters accepted"),
    }
}

#[test]
fn tools_without_schema_take_any_parameters() {
    let v = validator();
    assert!(v.validate_tool_parameters("kernel.status", &json(r#"{"anything": 1}"#)).is_ok());
}

#[test]
fn envelope_schema_is_checked() {
    let v = validator();
    assert!(v.validate_envelope(&json(r#"{"action":"plan.only","reasoning":"r"}"#)).is_ok());
    match v.validate_envelope(&json(r#"{"action":"plan.only","schema_version":"3"}"#)) {
        Err(RmngError::InvalidIntent(m)) => assert_eq!(m, "unsupported core intent schema_version '3' (expected 2)"),
        _ => panic!("wrong version accepted"),
    }
    match v.validate_envelope(&json(r#"{"reasoning":"no action"}"#)) {
        Err(RmngError::InvalidIntent(m)) => assert!(m.starts_with("core intent schema validation failed: ")),
        _ => panic!("schema violation accepted"),
    }
}

#[test]
fn compile_errors_are_reported() {
    match IntentValidator::new(fixture_registry(), json(r#"{"type": 12}"#)) {
        Err(RmngError::InvalidIntent(m)) => assert!(m.starts_with("compile core intent schema: ")),
        _ => panic!("bad schema compiled"),
    }
}

#[test]
fn verdicts_join_messages() {
    assert!(parameters_verdict("git.diff", &Vec::new()).is_ok());
    match parameters_verdict("git.diff", &vec!["a".to_string(), "b".to_string()]) {
        Err(RmngError::InvalidIntent(m)) => assert_eq!(m, "tool 'git.diff' parameters invalid: a; b"),
        _ => panic!("errors dropped"),
    }
    assert!(envelope_verdict(Some("2".to_string()), &Vec::new()).is_ok());
    assert!(envelope_verdict(None, &Vec::new()).is_ok());
    match envelope_verdict(None, &vec!["x".to_string()]) {
        Err(RmngError::InvalidIntent(m)) => assert_eq!(m, "core intent schema validation failed: x"),
        _ => panic!("errors dropped"),
    }
    match envelope_verdict(Some("1".to_string()), &vec!["x".to_string()]) {
        Err(RmngError::InvalidIntent(m)) => assert_eq!(m, "unsupported core intent schema_version '1' (expected 2)"),
        _ => panic!("version ignored"),
    }
}

fn runtime_with(allowlist: McpAllowlist) -> Runtime {
    let gate = PermissionGate::from_registry(&fixture_registry(), allowlist);
    Runtime::new(gate, AuditLog::new("/tmp/audit.jsonl"), validator())
}

fn github_allowlist() -> McpAllowlist {
    let mut list = McpAllowlist::new();
    list.insert(
        "github".to_string(),
        McpServerConfig {
            enabled: true,
            command: "npx".to_string(),
            args: vec!["@github/github-mcp-server".to_string()],
            allowed_tools: vec!["search_issues".to_string()],
            isolation: None,
        },
    );
    list
}

#[test]
fn plan_only_is_answered_with_its_reasoning() {
    let rt = runtime_with(McpAllowlist::new());
    let meta = Metadata {
        trace_id: Some("t-1".into()),
        skill_name: Some("kernel-build".into()),
        session_id: None,
        handoff_from: None,
        handoff_to: None,
        handoff_chain: None,
        handoff_return_to: None,
        chain_id: None,
        hop_failure_policy: None,
        hop_retry_max: None,
    };
    let intent = CoreIntent::PlanOnly { reasoning: "think".into(), metadata: Some(meta) };
    let envelope = json(r#"{"action":"plan.only","reasoning":"think"}"#);
    match rt.begin_core(&intent, &envelope) {
        Step::Respond(resp, draft) => {
            assert!(resp.ok);
            assert_eq!(resp.action.as_deref(), Some("plan.only"));
            let result = resp.tool_result.unwrap();
            assert_eq!(result.output, "think");
            assert_eq!(result.exit_code, Some(0));
            assert_eq!(draft.action, "plan.only");
            assert_eq!(draft.outcome, "ok");
            assert_eq!(draft.trace_id.as_deref(), Some("t-1"));
            assert_eq!(draft.skill_name.as_deref(), Some("kernel-build"));
            assert_eq!(draft.detail.as_deref(), Some("think"));
        }
        _ => panic!("plan not answered"),
    }
}

#[test]
fn denied_core_intent_is_answered_with_the_reason() {
    let rt = runtime_with(McpAllowlist::new());
    let intent = CoreIntent::McpProxy {
        mcp_server: "github".into(),
        mcp_tool: "create_issue".into(),
        mcp_args: json("{}"),
        metadata: None,
    };
    let envelope = json(r#"{"action":"mcp.proxy","mcp_server":"github","mcp_tool":"create_issue","mcp_args":{}}"#);
    match rt.begin_core(&intent, &envelope) {
        Step::Respond(resp, draft) => {
            assert!(!resp.ok);
            assert_eq!(resp.error.as_deref(), Some("mcp server not configured: github"));
            assert_eq!(draft.action, "deny");
            assert_eq!(draft.outcome, "deny");
            assert_eq!(draft.mcp_server.as_deref(), Some("github"));
        }
        _ => panic!("denied call ran"),
    }
}

#[test]
fn allowed_proxy_call_runs_the_configured_server() {
    let rt = runtime_with(github_allowlist());
    let intent = CoreIntent::McpProxy {
        mcp_server: "github".into(),
        mcp_tool: "search_issues".into(),
        mcp_args: json(r#"{"q":"bug"}"#),
        metadata: None,
    };
    let envelope = json(r#"{"action":"mcp.proxy","mcp_server":"github","mcp_tool":"search_issues","mcp_args":{"q":"bug"}}"#);
    match rt.begin_core(&intent, &envelope) {
        Step::RunMcp { command, args, tool, arguments } => {
            assert_eq!(command, "npx");
            assert_eq!(args, vec!["@github/github-mcp-server".to_string()]);
            assert_eq!(tool, "search_issues");
            assert_eq!(arguments, json(r#"{"q":"bug"}"#));
        }
        _ => panic!("allowed call did not run"),
    }
    let (resp, draft) = rt.finish_mcp(&intent, Ok("found".to_string())).unwrap();
    assert_eq!(resp.action.as_deref(), Some("mcp.proxy"));
    assert_eq!(resp.tool_result.unwrap().output, "found");
    assert_eq!(draft.action, "mcp.proxy:github.search_issues");
    assert_eq!(draft.detail.as_deref(), Some("github.search_issues"));
    match rt.finish_mcp(&intent, Err(McpError::Tool("boom".into()))) {
        Err(RmngError::ToolFailed(m)) => assert_eq!(m, "tool error: boom"),
        _ => panic!("failure lost"),
    }
}

#[test]
fn invalid_core_intent_is_answered_before_the_gate() {
    let rt = runtime_with(McpAllowlist::new());
    let intent = CoreIntent::ToolExecute { target: "system.rm_rf".into(), parameters: json("{}"), metadata: None };
    let envelope = json(r#"{"action":"tool.execute","target":"system.rm_rf","parameters":{}}"#);
    match rt.begin_core(&intent, &envelope) {
        Step::Respond(resp, draft) => {
            assert_eq!(
                resp.error.as_deref(),
                Some("invalid intent: unknown native tool 'system.rm_rf' (not in integration manifests)")
            );
            assert_eq!(draft.action, "validate");
            assert_eq!(draft.outcome, "invalid");
        }
        _ => panic!("invalid intent ran"),
    }
}

#[test]
fn native_tool_runs_then_is_recorded() {
    let rt = runtime_with(McpAllowlist::new());
    let intent = CoreIntent::ToolExecute { target: "git.status".into(), parameters: json("{}"), metadata: None };
    let envelope = json(r#"{"action":"tool.execute","target":"git.status","parameters":{}}"#);
    match rt.begin_core(&intent, &envelope) {
        Step::RunNative { tool, .. } => assert_eq!(tool, "git.status"),
        _ => panic!("tool did not run"),
    }
    let result = ToolResult { success: false, output: "x".into(), exit_code: Some(1), resources: None };
    let (resp, draft) = rt.finish_core_native(&intent, result);
    assert_eq!(resp.action.as_deref(), Some("tool.execute"));
    assert_eq!(draft.outcome, "fail");
    assert_eq!(draft.action, "git.status");
    assert_eq!(draft.detail.as_deref(), Some("target=git.status"));
}

#[test]
fn v1_intents_are_planned() {
    let rt = runtime_with(McpAllowlist::new());
    let id = Uuid::nil();
    let plan = Intent { schema_version: "1".into(), intent_id: id, kind: IntentKind::Clarify, summary: "s".into(), tool: None };
    match rt.begin_v1(&plan) {
        Step::Respond(resp, draft) => {
            assert!(resp.ok);
            assert_eq!(draft.action, "Clarify");
            assert_eq!(draft.detail.as_deref(), Some("s"));
            assert_eq!(draft.intent_id, Some(id));
        }
        _ => panic!("plan ran"),
    }
    let bad = Intent {
        schema_version: "1".into(),
        intent_id: id,
        kind: IntentKind::ToolRequest,
        summary: "s".into(),
        tool: Some(ToolRequest { name: "git.diff".into(), args: json(r#"{"staged":"yes"}"#) }),
    };
    match rt.begin_v1(&bad) {
        Step::Respond(resp, draft) => {
            assert!(resp.error.unwrap().starts_with("invalid intent: tool 'git.diff' parameters invalid: "));
            assert_eq!(draft.outcome, "invalid");
        }
        _ => panic!("invalid parameters ran"),
    }
    let good = Intent {
        schema_version: "1".into(),
        intent_id: id,
        kind: IntentKind::ToolRequest,
        summary: "s".into(),
        tool: Some(ToolRequest { name: "git.diff".into(), args: json(r#"{"staged":true}"#) }),
    };
    match rt.begin_v1(&good) {
        Step::RunNative { tool, .. } => assert_eq!(tool, "git.diff"),
        _ => panic!("valid call did not run"),
    }
    let result = ToolResult { success: true, output: "d".into(), exit_code: Some(0), resources: None };
    let (resp, draft) = rt.finish_v1_native(&good, result);
    assert!(resp.ok);
    assert_eq!(draft.outcome, "ok");
    let denied = Intent {
        schema_version: "1".into(),
        intent_id: id,
        kind: IntentKind::ToolRequest,
        summary: "s".into(),
        tool: Some(ToolRequest { name: "system.rm_rf".into(), args: json("{}") }),
    };
    match rt.begin_v1(&denied) {
        Step::Respond(resp, draft) => {
            assert_eq!(resp.error.as_deref(), Some("tool not allowed: system.rm_rf"));
            assert_eq!(draft.action, "deny");
        }
        _ => panic!("denied call ran"),
    }
}

#[test]
fn the_first_refused_tool_schema_is_named() {
    let reg = IntegrationRegistry::from_manifests(
        "r",
        vec![manifest("m", vec![tool("zeta.t", r#"{"type": 12}"#), tool("alpha.t", r#"{"type": 13}"#), tool("beta.t", "null")])],
    )
    .unwrap();
    match IntentValidator::new(reg, json(CORE_SCHEMA)) {
        Err(RmngError::InvalidIntent(m)) => assert!(m.starts_with("compile parameters schema for alpha.t: "), "{m}"),
        _ => panic!("expected a refused schema"),
    }
}

#[test]
fn error_messages_carry_the_outside_text() {
    let e: serde_json::Error = serde_json::from_str::<serde_json::Value>("{").unwrap_err();
    let shown = e.to_string();
    assert_eq!(RmngError::Serde(e).message(), format!("serialization error: {shown}"));
    let io = McpError::Io(std::io::Error::new(std::io::ErrorKind::Other, "pipe closed"));
    assert_eq!(io.message(), "io error: pipe closed");
}

#[test]
fn audit_ids_come_from_the_intent_then_the_trace() {
    use_audit_ids();
}

fn use_audit_ids() {
    let id = Uuid::parse_str("67e55044-10b1-426f-9247-bb680e5fe0c8").unwrap();
    let mut d = rmng::runtime::AuditDraft {
        intent_id: Some(id),
        trace_id: Some("not-a-uuid".into()),
        skill_name: None,
        track: None,
        mcp_server: None,
        action: "a".into(),
        outcome: "o".into(),
        detail: None,
    };
    assert!(matches!(rmng::runtime::audit_id_choice(&d), rmng::runtime::AuditIdChoice::Given(u) if u == id));
    d.intent_id = None;
    assert!(matches!(rmng::runtime::audit_id_choice(&d), rmng::runtime::AuditIdChoice::Fresh));
    d.trace_id = Some("67e55044-10b1-426f-9247-bb680e5fe0c8".into());
    assert!(matches!(rmng::runtime::audit_id_choice(&d), rmng::runtime::AuditIdChoice::FromTrace(n) if n == id.as_u128()));
}
