use rmng::audit::{audit_track_label, AuditLog, AuditTrack};
use rmng::config::{LlmProviderKind, RmngConfig};
use rmng::daemon_request::{orchestration_continue_line, DaemonLine, OrchestrationContinueResponse};
use rmng::error::RmngError;
use rmng::intent::{CoreIntent, Intent, IntentKind, Metadata};
use rmng::metrics::ResourceMetrics;
use rmng::readiness::{agent_registry_check, push_dir, push_writable, CheckLevel, ReadinessCheck, ReadinessReport};
use rmng::readiness::{readiness_from_probes, ConfigProbe, ReadinessProbes, WritableProbe};
use rmng::session::{
    build_tool_result_record, build_tool_result_record_at, lifecycle_label, lifecycle_status_for_hours, retain_last,
    session_ttl_days_from, SessionStore, MAX_TOOL_OUTPUT_LEN,
};
use rmng::tool::{HandleResponse, ToolResult};
use rmng::tools::{git_diff_args, native_tool, registered_tools, validate_repo_path, NativeTool};
use rmng::tools::{plan_tool_call, ToolCommand};

fn json(raw: &str) -> serde_json::Value {
    serde_json::from_str(raw).unwrap()
}

#[test]
fn defaults_to_none() {
    let cfg = RmngConfig::default();
    assert_eq!(cfg.llm.llm_provider, LlmProviderKind::Unconfigured);
    assert!(!cfg.llm_configured());
}

#[test]
fn configured_provider_and_defaults() {
    let mut cfg = RmngConfig::default();
    assert_eq!(cfg.llm.max_retries, 2);
    assert_eq!(cfg.llm.timeout_secs, 120);
    cfg.llm.llm_provider = LlmProviderKind::Ollama;
    assert!(cfg.llm_configured());
    assert!(!cfg.llm.is_mock());
}

#[test]
fn config_paths_follow_home() {
    assert_eq!(RmngConfig::config_path_for(Some("/home/u")), "/home/u/.rmng/config.toml");
    assert_eq!(RmngConfig::config_path_for(Some("/home/u/")), "/home/u/.rmng/config.toml");
    assert_eq!(RmngConfig::config_path_for(None), "/tmp/rmng/config.toml");
    assert_eq!(
        rmng::allowlist::McpAllowlist::config_path_for(Some("/h")),
        "/h/.rmng/mcp-allowlist.toml"
    );
    assert_eq!(AuditLog::default_path_for(Some("/h")), "/h/.rmng/logs/audit.jsonl");
    assert_eq!(AuditLog::default_path_for(None), "/tmp/rmng/logs/audit.jsonl");
    assert_eq!(SessionStore::sessions_root_for(None), ".rmng/sessions");
}

#[test]
fn audit_track_labels() {
    assert_eq!(audit_track_label(AuditTrack::Native), "native");
    assert_eq!(audit_track_label(AuditTrack::Mcp), "mcp");
    assert_eq!(audit_track_label(AuditTrack::Plan), "plan");
    assert_eq!(AuditLog::new("/var/log/a.jsonl").path(), "/var/log/a.jsonl");
}

#[test]
fn rejects_unsafe_path() {
    assert!(validate_repo_path("/tmp/../etc/passwd").is_err());
    assert!(validate_repo_path("relative/path").is_err());
}

#[test]
fn repo_path_errors_and_success() {
    assert!(matches!(validate_repo_path(""), Err(RmngError::InvalidIntent(m)) if m == "empty path"));
    assert!(matches!(validate_repo_path("/a;b"), Err(RmngError::InvalidIntent(m)) if m == "unsafe path: /a;b"));
    assert!(matches!(validate_repo_path("a/b"), Err(RmngError::InvalidIntent(m)) if m == "path must be absolute"));
    assert_eq!(validate_repo_path("/home/u/repo.git").unwrap(), "/home/u/repo.git");
    for bad in ["/tmp/$(id)", "/tmp/`id`", "/a<b", "/a>b", "/a(b", "/a)b", "/a\nb", "/a$b"] {
        assert!(matches!(validate_repo_path(bad), Err(RmngError::InvalidIntent(m)) if m.starts_with("unsafe path: ")), "{bad}");
    }
    assert!(validate_repo_path("/a.b/.c").is_ok());
}

#[test]
fn registered_tools_have_handlers() {
    let tools = registered_tools();
    assert_eq!(tools.len(), 6);
    for t in &tools {
        assert!(native_tool(t).is_some());
    }
    assert_eq!(native_tool("git.diff"), Some(NativeTool::GitDiff));
    assert_eq!(native_tool("shell.exec"), None);
    assert_eq!(git_diff_args(true), vec!["diff", "--stat", "--cached"]);
    assert_eq!(git_diff_args(false), vec!["diff", "--stat"]);
}

#[test]
fn session_paths() {
    let store = SessionStore::new("/home/u/.rmng/sessions");
    assert_eq!(store.root(), "/home/u/.rmng/sessions");
    assert_eq!(store.path_for("abc"), "/home/u/.rmng/sessions/abc.json");
    assert_eq!(SessionStore::sessions_root_for(Some("/home/u")), "/home/u/.rmng/sessions");
}

#[test]
fn ttl_days_from_environment_value() {
    assert_eq!(session_ttl_days_from(None), Some(90));
    assert_eq!(session_ttl_days_from(Some("30")), Some(30));
    assert_eq!(session_ttl_days_from(Some("+7")), Some(7));
    assert_eq!(session_ttl_days_from(Some("0")), None);
    assert_eq!(session_ttl_days_from(Some("x")), Some(90));
    assert_eq!(session_ttl_days_from(Some(" 5")), Some(90));
    assert_eq!(session_ttl_days_from(Some("4294967295")), Some(u32::MAX));
    assert_eq!(session_ttl_days_from(Some("4294967296")), Some(90));
    assert_eq!(session_ttl_days_from(Some("+")), Some(90));
    assert_eq!(session_ttl_days_from(Some("abc")), Some(90));
}

#[test]
fn lifecycle_rules() {
    assert_eq!(lifecycle_status_for_hours(0), "active");
    assert_eq!(lifecycle_status_for_hours(1), "idle");
    assert_eq!(lifecycle_status_for_hours(167), "idle");
    assert_eq!(lifecycle_status_for_hours(168), "stale");
    assert_eq!(lifecycle_label("idle"), "idle");
    assert_eq!(lifecycle_label("open"), "open");
    assert_eq!(lifecycle_label("weird"), "open");
}

#[test]
fn retain_last_keeps_newest() {
    let mut v: Vec<u32> = (0..120).collect();
    retain_last(&mut v, 100);
    assert_eq!(v.len(), 100);
    assert_eq!(v[0], 20);
    assert_eq!(v[99], 119);
    let mut w = vec![1, 2, 3];
    retain_last(&mut w, 50);
    assert_eq!(w, vec![1, 2, 3]);
}

fn meta_from(handoff_from: &str) -> Metadata {
    Metadata {
        trace_id: None,
        skill_name: None,
        session_id: None,
        handoff_from: Some(handoff_from.into()),
        handoff_to: None,
        handoff_chain: None,
        handoff_return_to: None,
        chain_id: None,
        hop_failure_policy: None,
        hop_retry_max: None,
    }
}

#[test]
fn record_for_tool_execute() {
    let intent = CoreIntent::ToolExecute { target: "git.status".into(), parameters: json("{}"), metadata: Some(meta_from("swarm")) };
    let resp = HandleResponse::core_success(
        "tool.execute:git.status",
        Some(ToolResult {
            success: true,
            output: "branch main".into(),
            exit_code: Some(0),
            resources: Some(ResourceMetrics { peak_rss_kb: Some(10), cpu_time_ms: Some(3), runtime_ms: Some(40) }),
        }),
    );
    let rec = build_tool_result_record_at(&intent, &resp, 1234).unwrap();
    assert_eq!(rec.tool, "git.status");
    assert_eq!(rec.output, "branch main");
    assert!(rec.success);
    assert_eq!(rec.exit_code, Some(0));
    assert_eq!(rec.handoff_from.as_deref(), Some("swarm"));
    assert_eq!(rec.peak_rss_kb, Some(10));
    assert_eq!(rec.runtime_ms, Some(40));
    assert_eq!(rec.timestamp_ms, 1234);
    assert_eq!(rec.parameters, json("{}"));
}

#[test]
fn record_for_mcp_failure_and_plan() {
    let intent = CoreIntent::McpProxy { mcp_server: "git".into(), mcp_tool: "git.log".into(), mcp_args: json("{\"n\": 1}"), metadata: None };
    let resp = HandleResponse::failure("boom");
    let rec = build_tool_result_record(&intent, &resp).unwrap();
    assert_eq!(rec.tool, "git.git.log");
    assert_eq!(rec.output, "boom");
    assert!(!rec.success);
    assert_eq!(rec.parameters, json("{\"n\": 1}"));
    let ok_no_result = HandleResponse::core_success("mcp.proxy", None);
    assert_eq!(build_tool_result_record(&intent, &ok_no_result).unwrap().output, "mcp.proxy");
    let plan = CoreIntent::PlanOnly { reasoning: "r".into(), metadata: None };
    assert!(build_tool_result_record(&plan, &resp).is_none());
}

#[test]
fn record_truncates_long_output() {
    let intent = CoreIntent::ToolExecute { target: "kernel.build".into(), parameters: json("{}"), metadata: None };
    let long = "x".repeat(MAX_TOOL_OUTPUT_LEN + 10);
    let resp = HandleResponse::core_success(
        "tool.execute",
        Some(ToolResult { success: false, output: long, exit_code: Some(2), resources: None }),
    );
    let rec = build_tool_result_record(&intent, &resp).unwrap();
    assert_eq!(rec.output.len(), MAX_TOOL_OUTPUT_LEN + "\n...(truncated)".len());
    assert!(rec.output.ends_with("\n...(truncated)"));
    assert!(!rec.success);
    assert_eq!(rec.exit_code, Some(2));
}

#[test]
fn handle_response_constructors() {
    let s = HandleResponse::success(IntentKind::Plan, None);
    assert!(s.ok && s.kind == Some(IntentKind::Plan) && s.action.is_none());
    let f = HandleResponse::failure("bad");
    assert!(!f.ok && f.error.as_deref() == Some("bad") && f.tool_result.is_none());
}

#[test]
fn v1_schema_version_check() {
    let intent = Intent {
        schema_version: "2".into(),
        intent_id: uuid::Uuid::nil(),
        kind: IntentKind::Plan,
        summary: "s".into(),
        tool: None,
    };
    match Intent::accept_parsed(intent.clone()) {
        Err(RmngError::InvalidIntent(m)) => assert_eq!(m, "unsupported schema_version: 2"),
        _ => panic!("expected rejection"),
    }
    let mut ok = intent;
    ok.schema_version = "1".into();
    assert!(Intent::accept_parsed(ok).is_ok());
}

#[test]
fn core_intent_kinds() {
    let plan = CoreIntent::PlanOnly { reasoning: "x".into(), metadata: Some(meta_from("a")) };
    assert!(!plan.is_executable());
    assert_eq!(plan.metadata().and_then(|m| m.handoff_from.as_deref()), Some("a"));
    let exec = CoreIntent::ToolExecute { target: "kernel.status".into(), parameters: json("{}"), metadata: None };
    assert!(exec.is_executable());
    assert!(exec.metadata().is_none());
}

#[test]
fn parses_orchestration_continue() {
    let raw: serde_json::Value = serde_json::from_str(r#"{"action":"orchestration.continue","session_id":"abc-123"}"#).unwrap();
    let action = raw["action"].as_str().unwrap();
    let session = raw.get("session_id").and_then(|v| v.as_str()).map(|s| s.to_string());
    match orchestration_continue_line(action, session) {
        Some(Ok(DaemonLine::OrchestrationContinue { session_id })) => assert_eq!(session_id, "abc-123"),
        _ => panic!("expected continue"),
    }
}

#[test]
fn still_parses_core_intent() {
    let raw: serde_json::Value =
        serde_json::from_str(r#"{"action":"tool.execute","target":"git.status","parameters":{}}"#).unwrap();
    assert!(orchestration_continue_line(raw["action"].as_str().unwrap(), None).is_none());
}

#[test]
fn continue_line_errors_and_trimming() {
    assert!(matches!(
        orchestration_continue_line("orchestration.continue", None),
        Some(Err(RmngError::InvalidIntent(m))) if m == "orchestration.continue requires session_id"
    ));
    assert!(matches!(
        orchestration_continue_line("orchestration.continue", Some("   ".into())),
        Some(Err(RmngError::InvalidIntent(m))) if m == "orchestration.continue session_id must not be empty"
    ));
    assert!(matches!(
        orchestration_continue_line("orchestration.continue", Some("  s1 ".into())),
        Some(Ok(DaemonLine::OrchestrationContinue { session_id })) if session_id == "s1"
    ));
}

#[test]
fn continue_responses() {
    let ok = OrchestrationContinueResponse::success("s", 3, true, "done", vec!["tool.execute".into()]);
    assert!(ok.ok && ok.steps_run == 3 && ok.status == "done" && ok.action == "orchestration.continue");
    let f = OrchestrationContinueResponse::failure("s", "nope");
    assert!(!f.ok && f.finished && f.status == "failed" && f.error.as_deref() == Some("nope"));
    let t = OrchestrationContinueResponse::timed_out("s", 120);
    assert_eq!(t.status, "timed_out");
    assert_eq!(t.error.as_deref(), Some("auto-continue timed out after 120s"));
    assert!(t.dispatch_actions.is_empty());
}

#[test]
fn agent_registry_checks() {
    let none = agent_registry_check(None);
    assert_eq!(none.level, CheckLevel::Warn);
    assert_eq!(none.id, "agents");
    let empty = agent_registry_check(Some(Ok(0)));
    assert_eq!(empty.level, CheckLevel::Error);
    let some = agent_registry_check(Some(Ok(12)));
    assert_eq!(some.level, CheckLevel::Pass);
    assert_eq!(some.message, "12 agent definition(s) loaded");
    let err = agent_registry_check(Some(Err("bad yaml".into())));
    assert_eq!(err.message, "registry load failed: bad yaml");
}

#[test]
fn readiness_report_tracks_errors() {
    let mut checks: Vec<ReadinessCheck> = Vec::new();
    push_dir(&mut checks, "rmng_home", "/home/u/.rmng", true, true);
    push_writable(&mut checks, "sessions_dir", "/home/u/.rmng/sessions", false, true, None);
    let mut report = ReadinessReport::from_checks(checks);
    assert!(report.ok);
    assert_eq!(report.checks[1].message, "created /home/u/.rmng/sessions");
    report.push_check(agent_registry_check(Some(Ok(0))));
    assert!(!report.ok);
    report.push_check(agent_registry_check(Some(Ok(3))));
    assert!(!report.ok);
    let mut more: Vec<ReadinessCheck> = Vec::new();
    push_dir(&mut more, "x", "/missing", false, true);
    push_dir(&mut more, "y", "/missing", false, false);
    assert_eq!(more[0].message, "missing directory /missing");
    assert_eq!(more[1].level, CheckLevel::Warn);
    assert!(!ReadinessReport::from_checks(more).ok);
}

#[test]
fn error_messages() {
    assert_eq!(RmngError::PermissionDenied("x".into()).message(), "permission denied: x");
    assert_eq!(RmngError::ToolFailed("y".into()).message(), "tool execution failed: y");
    assert_eq!(rmng::error::McpError::Timeout("z".into()).message(), "timeout: z");
}

#[test]
fn tool_calls_are_planned() {
    let v = |s: &str| serde_json::from_str::<serde_json::Value>(s).unwrap();
    match plan_tool_call("kernel.build", &v(r#"{"target":"modules"}"#), "/p", "/s.sh").unwrap() {
        ToolCommand::Script { script, args } => {
            assert_eq!(script, "/p/scripts/build.sh");
            assert_eq!(args, vec!["modules".to_string()]);
        }
        _ => panic!("wrong command"),
    }
    match plan_tool_call("kernel.build", &v("{}"), "/p", "/s.sh").unwrap() {
        ToolCommand::Script { args, .. } => assert_eq!(args, vec!["all".to_string()]),
        _ => panic!("wrong command"),
    }
    assert_eq!(
        plan_tool_call("kernel.status", &v("{}"), "/p", "/s.sh").unwrap(),
        ToolCommand::Script { script: "/s.sh".into(), args: vec![] }
    );
    assert_eq!(
        plan_tool_call("git.diff", &v(r#"{"staged":true,"path":"/repo"}"#), "/p", "/s.sh").unwrap(),
        ToolCommand::InRepo {
            program: "git".into(),
            args: vec!["diff".into(), "--stat".into(), "--cached".into()],
            repo: "/repo".into()
        }
    );
    assert!(matches!(
        plan_tool_call("git.status", &v(r#"{"path":"/a/../b"}"#), "/p", "/s.sh"),
        Err(RmngError::InvalidIntent(_))
    ));
    match plan_tool_call("github.pr_status", &v(r#"{"path":"rel"}"#), "/p", "/s.sh").unwrap() {
        ToolCommand::InRepo { program, repo, .. } => {
            assert_eq!(program, "gh");
            assert_eq!(repo, "/p");
        }
        _ => panic!("wrong command"),
    }
    match plan_tool_call("shell.exec", &v("{}"), "/p", "/s.sh") {
        Err(RmngError::ToolFailed(m)) => assert_eq!(m, "no handler registered for tool: shell.exec"),
        _ => panic!("unknown tool planned"),
    }
}

#[test]
fn record_truncates_by_characters() {
    let intent = CoreIntent::ToolExecute { target: "kernel.build".into(), parameters: json("{}"), metadata: None };
    let long = "é".repeat(2100);
    let resp = HandleResponse::core_success(
        "tool.execute",
        Some(ToolResult { success: true, output: long.clone(), exit_code: Some(0), resources: None }),
    );
    let rec = build_tool_result_record(&intent, &resp).unwrap();
    assert_eq!(rec.output, long);
    let longer = "é".repeat(MAX_TOOL_OUTPUT_LEN + 1);
    let resp = HandleResponse::core_success(
        "tool.execute",
        Some(ToolResult { success: true, output: longer, exit_code: Some(0), resources: None }),
    );
    let rec = build_tool_result_record(&intent, &resp).unwrap();
    assert_eq!(rec.output, "é".repeat(MAX_TOOL_OUTPUT_LEN) + "\n...(truncated)");
}

#[test]
fn readiness_from_what_was_read() {
    let probes = ReadinessProbes {
        home_shown: "/h/.rmng".into(),
        home_is_dir: true,
        config_path: "/h/.rmng/config.toml".into(),
        config: ConfigProbe::Missing("no such file".into()),
        sessions: WritableProbe { shown: "/h/.rmng/sessions".into(), existed: true, created: false, probe_error: None },
        socket_dir: None,
        integrations: Ok(3),
        llm_configured: false,
        allowlist_path: "/h/.rmng/mcp.toml".into(),
        allowlist_present: true,
        audit_path: "/h/.rmng/audit.jsonl".into(),
        audit_present: false,
    };
    let r = readiness_from_probes(&probes);
    assert!(r.ok);
    let ids: Vec<&str> = r.checks.iter().map(|c| c.id.as_str()).collect();
    assert_eq!(ids, vec!["rmng_home", "config", "sessions_dir", "integrations", "llm", "mcp_allowlist", "audit"]);
    assert_eq!(r.checks[1].message, "/h/.rmng/config.toml missing (no such file); using defaults");
    assert_eq!(r.checks[1].level, CheckLevel::Warn);
    assert_eq!(r.checks[2].message, "/h/.rmng/sessions writable");
    assert_eq!(r.checks[3].message, "3 integration manifest(s)");
    assert_eq!(r.checks[6].message, "/h/.rmng/audit.jsonl will be created on first dispatch");
    let bad = ReadinessProbes { home_is_dir: false, socket_dir: Some(WritableProbe { shown: "/run".into(), existed: false, created: false, probe_error: None }), ..probes };
    let r = readiness_from_probes(&bad);
    assert!(!r.ok);
    assert_eq!(r.checks.len(), 8);
    assert_eq!(r.checks[0].message, "missing directory /h/.rmng");
    assert_eq!(r.checks[3].message, "cannot create /run");
}

#[test]
fn session_tokens_only_when_they_fit() {
    use_tokens();
}

fn use_tokens() {
    let a = rmng::observe::TokenCounts { prompt: Some(3), completion: Some(4), total: None };
    let b = rmng::observe::TokenCounts { prompt: None, completion: None, total: Some(10) };
    assert_eq!(rmng::observe::session_tokens_if_fit(&vec![a, b]), Some(17));
    let big = rmng::observe::TokenCounts { prompt: Some(u32::MAX), completion: Some(1), total: None };
    assert_eq!(rmng::observe::session_tokens_if_fit(&vec![a, big]), None);
    let mut v = vec![1, 2, 3];
    rmng::session::push_bounded(&mut v, 4, 3);
    assert_eq!(v, vec![2, 3, 4]);
}
