use rmng::agent_session::{AgentSession, ContextValue};
use rmng::intent::CoreIntent;
use rmng::session::{build_tool_result_record, SessionError, SessionLoadOptions, SessionStore, ToolResultRecord};
use rmng::tool::{HandleResponse, ToolResult};

const DAY_MS: i64 = 86_400_000;
const NOW: i64 = 1_700_000_000_000;

fn json(raw: &str) -> serde_json::Value {
    serde_json::from_str(raw).unwrap()
}

fn tool_results(s: &AgentSession) -> Vec<ToolResultRecord> {
    for (k, v) in &s.shared_context {
        if k == "tool_results" {
            if let ContextValue::ToolResults(l) = v {
                return l.clone();
            }
        }
    }
    Vec::new()
}

fn record(tool: &str, output: &str, success: bool) -> ToolResultRecord {
    ToolResultRecord {
        timestamp_ms: NOW,
        tool: tool.into(),
        parameters: json("{}"),
        output: output.into(),
        success,
        exit_code: Some(0),
        handoff_from: None,
        peak_rss_kb: None,
        cpu_time_ms: None,
        runtime_ms: None,
    }
}

#[test]
fn record_tool_result_in_shared_context() {
    let mut session = AgentSession::open("s1".into(), NOW);
    let intent = CoreIntent::ToolExecute { target: "git.status".into(), parameters: json("{}"), metadata: None };
    let resp = HandleResponse::core_success(
        "tool.execute:git.status",
        Some(ToolResult { success: true, output: "branch main".into(), exit_code: Some(0), resources: None }),
    );
    let rec = build_tool_result_record(&intent, &resp).expect("record");
    session.record_tool_result(rec, serde_json::Value::Null, NOW);
    let results = tool_results(&session);
    assert_eq!(results.len(), 1);
    assert!(results[0].output.contains("branch main"));
}

#[test]
fn prune_removes_old_sessions() {
    let mut stale = AgentSession::open("old".into(), NOW);
    stale.updated_at_ms = NOW - 60 * DAY_MS;
    let fresh = AgentSession::open("new".into(), NOW);
    let removed: Vec<&str> = [&stale, &fresh].iter().filter(|s| s.expired(30, NOW)).map(|s| s.id.as_str()).collect();
    assert_eq!(removed.len(), 1);
    assert_eq!(removed[0], stale.id);
    assert!(!fresh.expired(30, NOW));
}

#[test]
fn ttl_expired_session_removed_on_load() {
    let store = SessionStore::new("/tmp/sessions");
    let mut session = AgentSession::open("old".into(), NOW);
    session.updated_at_ms = NOW - 120 * DAY_MS;
    let err = store.accept_loaded("old", session.clone(), SessionLoadOptions::default(), Some(90), NOW);
    assert!(matches!(err, Err(SessionError::Expired(_))));
    let kept = store.accept_loaded("old", session, SessionLoadOptions { enforce_ttl: false }, Some(90), NOW).unwrap();
    assert_eq!(kept.task_state.status, "stale");
}

#[test]
fn tool_results_summary_formats_for_llm() {
    let mut session = AgentSession::open("s".into(), NOW);
    session.record_tool_result(record("git.status", "On branch main", true), serde_json::Value::Null, NOW);
    let summary = session.tool_results_summary(3);
    assert!(summary.contains("git.status"));
    assert!(summary.contains("On branch main"));
    assert_eq!(summary, "- git.status [ok]: On branch main");
}

#[test]
fn create_load_and_handoff() {
    let mut session = AgentSession::open("s".into(), NOW);
    session.set_active_agent("L3", "repo-keeper", "L3", NOW);
    session.record_handoff("swarm-coordinator", "L4", "repo-keeper", "L3", "delegate git workflow", Some("check status"), NOW);
    assert_eq!(session.handoff_history.len(), 1);
    let slot = session.active_agents.iter().find(|(k, _)| k == "L3").map(|(_, v)| v).unwrap();
    assert_eq!(slot.agent_id, "repo-keeper");
}

#[test]
fn new_session_is_open_and_empty() {
    let s = AgentSession::open("abc".into(), NOW);
    assert_eq!(s.task_state.status, "open");
    assert_eq!(s.lifecycle_label(), "open");
    assert!(s.handoff_history.is_empty());
    assert_eq!(s.tool_results_summary(5), "(no prior tool results)");
}

#[test]
fn lifecycle_follows_time_since_update() {
    let mut s = AgentSession::open("x".into(), NOW);
    s.refresh_lifecycle(NOW + 30 * 60 * 1000);
    assert_eq!(s.task_state.status, "active");
    s.refresh_lifecycle(NOW + 2 * 3_600_000);
    assert_eq!(s.task_state.status, "idle");
    s.refresh_lifecycle(NOW + 8 * DAY_MS);
    assert_eq!(s.task_state.status, "stale");
    assert_eq!(s.lifecycle_label(), "stale");
    s.mark_active("do it", NOW + 9 * DAY_MS);
    assert_eq!(s.task_state.status, "active");
    assert_eq!(s.task_state.current_prompt.as_deref(), Some("do it"));
    assert_eq!(s.updated_at_ms, NOW + 9 * DAY_MS);
    assert_eq!(s.freshness_label(7, NOW + 10 * DAY_MS), "active");
    assert_eq!(s.freshness_label(0, NOW + 10 * DAY_MS), "stale");
}

#[test]
fn tool_results_keep_the_newest_fifty() {
    let mut s = AgentSession::open("x".into(), NOW);
    for i in 0..55 {
        s.record_tool_result(record(&format!("t{i}"), "o", i % 2 == 0), serde_json::Value::Null, NOW);
    }
    let results = tool_results(&s);
    assert_eq!(results.len(), 50);
    assert_eq!(results[0].tool, "t5");
    assert_eq!(results[49].tool, "t54");
    let summary = s.tool_results_summary(2);
    assert_eq!(summary, "- t53 [failed]: o\n- t54 [ok]: o");
}

#[test]
fn summary_preview_keeps_five_hundred_characters() {
    let mut s = AgentSession::open("x".into(), NOW);
    let long: String = "é".repeat(600);
    s.record_tool_result(record("big", &long, true), serde_json::Value::Null, NOW);
    let summary = s.tool_results_summary(1);
    assert_eq!(summary, format!("- big [ok]: {}", "é".repeat(500)));
}

#[test]
fn context_values_are_set_and_cleared() {
    let mut s = AgentSession::open("x".into(), NOW);
    s.set_orchestration_state(json(r#"{"hop":1}"#), NOW);
    s.set_context("k", json("3"), NOW + 1);
    assert_eq!(s.updated_at_ms, NOW + 1);
    s.record_chain_failure(2, "a", "b", "boom", NOW + 2);
    let orch = s
        .shared_context
        .iter()
        .find(|(k, _)| k == "orchestration")
        .map(|(_, v)| match v {
            ContextValue::Json(j) => j.clone(),
            _ => panic!("not json"),
        })
        .unwrap();
    assert_eq!(orch, json(r#"{"hop":1,"status":"failed","failed_hop":2,"failed_from":"a","failed_to":"b","error":"boom"}"#));
    s.clear_orchestration_state(NOW + 3);
    assert!(s.shared_context.iter().all(|(k, _)| k != "orchestration"));
    let mut fresh = AgentSession::open("y".into(), NOW);
    fresh.record_chain_failure(0, "a", "b", "e", NOW);
    assert!(fresh.shared_context.iter().any(|(k, _)| k == "orchestration"));
}

#[test]
fn prompt_context_lists_what_the_session_holds() {
    let mut s = AgentSession::open("s-1".into(), NOW);
    assert_eq!(s.prompt_context(), "session_id: s-1\nlifecycle: open");
    s.mark_active("fix build", NOW);
    s.record_tool_result(record("git.status", "clean", true), serde_json::Value::Null, NOW);
    s.record_handoff("a", "L4", "b", "L3", "why", None, NOW);
    s.set_active_agent("L3", "b", "L3", NOW);
    let text = s.prompt_context_with(Some("{}".into()), None);
    assert_eq!(
        text,
        "session_id: s-1\nlifecycle: active\ncurrent_task: fix build\nrecent_tool_results:\n- git.status [ok]: clean\nshared_context:\n{}\nrecent_handoffs:\n- a (L4) \u{2192} b (L3): why\nactive_agents: L3: b"
    );
    s.set_orchestration_state(json(r#"{"hop":1}"#), NOW);
    let full = s.prompt_context();
    assert!(full.contains("orchestration_chain: {\"hop\":1}"));
    assert!(full.contains("shared_context:\n{\n  \"orchestration\": {\n    \"hop\": 1\n  }\n}"));
}

#[test]
fn session_errors_have_messages() {
    assert_eq!(SessionError::NotFound("x".into()).message(), "session not found: x");
    assert_eq!(SessionError::Expired("x".into()).message(), "session expired (TTL): x");
}

#[test]
fn record_appends_to_a_json_list() {
    let mut s = AgentSession::open("s2".into(), NOW);
    s.set_context("tool_results", json("[1]"), NOW);
    s.record_tool_result(record("git.status", "clean", true), json(r#"{"tool":"git.status"}"#), NOW);
    let mut found = None;
    for (k, v) in &s.shared_context {
        if k == "tool_results" {
            if let ContextValue::Json(j) = v {
                found = Some(j.clone());
            }
        }
    }
    assert_eq!(found, Some(json(r#"[1,{"tool":"git.status"}]"#)));
}
