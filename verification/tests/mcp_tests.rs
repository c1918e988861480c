use rmng::capabilities::drop_all_capabilities;
use rmng::client::wire_tool_name;
use rmng::isolation::{build_report, call_isolation_report, cgroup_files, IsolationLimits};
use rmng::metrics::{metrics_from_wait, timeval_to_ms, ResourceMetrics};
use rmng::seccomp::{filter_json, is_high_risk_mcp_server, normalize_profile, seccomp_program, PROFILE_BASIC, PROFILE_E2B, PROFILE_PLAYWRIGHT};
use rmng::mcp_protocol::{read_reply_line, ReplyLine};
use rmng::mcp_protocol::extract_tool_text;
use rmng::mcp_protocol::{call_timeout_error, call_timeout_secs, initialize_params, rpc_notification, rpc_request, tool_call_params};
use rmng::intent::{envelope_version, EnvelopeVersion};
use rmng::mcp_protocol::{finish_call, CallEnd};
use rmng::mcp_session::{mcp_session_step, McpAction, McpEvent, McpState};
use rmng::capabilities::{next_cap_set, clear_sets_in_order, CapabilitySet};

#[test]
fn drop_capabilities_no_panic() {
    let _ = drop_all_capabilities();
}

#[test]
fn drop_capabilities_error_names_the_set() {
    if let Err(m) = drop_all_capabilities() {
        assert!(m.starts_with("cap_drop("));
    }
}

#[test]
fn maps_dot_names_to_underscore() {
    assert_eq!(wire_tool_name("git.log"), "git_log");
    assert_eq!(wire_tool_name("get_issue"), "get_issue");
}

#[test]
fn wire_name_of_wire_name_is_unchanged() {
    let once = wire_tool_name("a.b.c");
    assert_eq!(once, "a_b_c");
    assert_eq!(wire_tool_name(&once), once);
    assert_eq!(wire_tool_name(""), "");
    assert_eq!(wire_tool_name("é.ü"), "é_ü");
}

#[test]
fn merge_prefers_override() {
    let base = IsolationLimits { memory_mb: Some(512), cpu_percent: Some(50), ..Default::default() };
    let over = IsolationLimits { memory_mb: Some(256), new_session: true, ..Default::default() };
    let m = IsolationLimits::merge(&base, Some(&over));
    assert_eq!(m.memory_mb, Some(256));
    assert_eq!(m.cpu_percent, Some(50));
    assert!(m.new_session);
}

#[test]
fn merge_without_override_keeps_base() {
    let base = IsolationLimits { pids_max: Some(7), seccomp_profile: Some("basic".into()), ..Default::default() };
    assert_eq!(IsolationLimits::merge(&base, None), base);
    assert_eq!(IsolationLimits::merge(&base, Some(&base)), base);
}

#[test]
fn merge_is_associative_on_example() {
    let a = IsolationLimits { memory_mb: Some(1), cgroup: true, ..Default::default() };
    let b = IsolationLimits { cpu_percent: Some(2), seccomp_profile: Some("e2b".into()), ..Default::default() };
    let c = IsolationLimits { memory_mb: Some(3), no_new_privs: true, ..Default::default() };
    let left = IsolationLimits::merge(&IsolationLimits::merge(&a, Some(&b)), Some(&c));
    let right = IsolationLimits::merge(&a, Some(&IsolationLimits::merge(&b, Some(&c))));
    assert_eq!(left, right);
    assert_eq!(left.memory_mb, Some(3));
    assert_eq!(left.seccomp_profile.as_deref(), Some("e2b"));
}

#[test]
fn seccomp_makes_isolation_active() {
    let limits = IsolationLimits { seccomp_profile: Some("e2b".into()), ..Default::default() };
    assert!(limits.is_active());
}

#[test]
fn inactive_limits() {
    assert!(!IsolationLimits::default().is_active());
    let off = IsolationLimits { seccomp_profile: Some("off".into()), ..Default::default() };
    assert!(!off.is_active());
    let caps = IsolationLimits { drop_capabilities: true, ..Default::default() };
    assert!(caps.is_active());
}

#[test]
fn report_for_unknown_profile_warns() {
    let limits = IsolationLimits { seccomp_profile: Some("bogus".into()), memory_mb: Some(64), ..Default::default() };
    let r = build_report(&limits, None, vec!["first".to_string()]);
    assert!(!r.seccomp_applied);
    assert_eq!(r.seccomp_profile, None);
    assert_eq!(r.rlimit_as, Some(64));
    assert_eq!(r.warnings, vec!["first".to_string(), "seccomp: unknown profile Some(\"bogus\")".to_string()]);
}

#[test]
fn report_for_known_profile_is_canonical() {
    let limits = IsolationLimits { seccomp_profile: Some(" Playwright ".into()), drop_capabilities: true, ..Default::default() };
    let r = build_report(&limits, Some("/sys/fs/cgroup/x".into()), Vec::new());
    assert!(r.seccomp_applied);
    assert_eq!(r.seccomp_profile.as_deref(), Some("playwright"));
    assert!(r.capabilities_dropped);
    assert_eq!(r.cgroup_path.as_deref(), Some("/sys/fs/cgroup/x"));
    assert!(r.warnings.is_empty());
}

#[test]
fn missing_cgroup_is_reported() {
    let limits = IsolationLimits { cgroup: true, ..Default::default() };
    let r = call_isolation_report(&limits, None, vec!["cgroup: no user delegation path (set RMNG_CGROUP_BASE)".to_string()]);
    assert_eq!(r.warnings.len(), 2);
    assert_eq!(r.warnings[1], "cgroup limits not applied");
    let applied = call_isolation_report(&limits, Some("/cg".into()), Vec::new());
    assert!(applied.warnings.is_empty());
}

#[test]
fn cgroup_files_follow_limits() {
    let limits = IsolationLimits { memory_mb: Some(512), cpu_percent: Some(50), pids_max: Some(64), ..Default::default() };
    let files = cgroup_files(&limits);
    assert_eq!(
        files,
        vec![
            ("memory.max".to_string(), "512M".to_string()),
            ("cpu.max".to_string(), "50000 100000".to_string()),
            ("pids.max".to_string(), "64".to_string()),
        ]
    );
    assert!(cgroup_files(&IsolationLimits::default()).is_empty());
}

#[test]
fn normalizes_profile_names() {
    assert_eq!(normalize_profile("Playwright"), Some(PROFILE_PLAYWRIGHT));
    assert_eq!(normalize_profile("off"), None);
    assert_eq!(normalize_profile("bogus"), None);
}

#[test]
fn normalizes_padded_and_uppercase_names() {
    assert_eq!(normalize_profile("  BASIC\t"), Some(PROFILE_BASIC));
    assert_eq!(normalize_profile("e2B"), Some(PROFILE_E2B));
    assert_eq!(normalize_profile(""), None);
    assert_eq!(normalize_profile("none"), None);
    assert_eq!(normalize_profile(normalize_profile("E2B ").unwrap()), Some(PROFILE_E2B));
}

#[test]
fn high_risk_servers() {
    assert!(is_high_risk_mcp_server("playwright"));
    assert!(is_high_risk_mcp_server("e2b"));
    assert!(!is_high_risk_mcp_server("git"));
}

#[test]
fn filters_exist_for_each_profile() {
    assert!(filter_json(PROFILE_BASIC).unwrap().contains("\"kexec_load\""));
    assert!(filter_json(PROFILE_PLAYWRIGHT).unwrap().contains("\"mount\""));
    assert_eq!(filter_json(PROFILE_E2B), filter_json(PROFILE_BASIC));
    assert!(!filter_json(PROFILE_PLAYWRIGHT).unwrap().contains("\"unshare\""));
    assert_eq!(filter_json("Basic"), None);
}

#[test]
fn compiles_profiles() {
    // The filters name x86 syscalls (`iopl`, `ioperm`), which seccompiler
    // knows on x86_64 only.
    for arch_name in ["x86_64"] {
        let arch: seccompiler::TargetArch = arch_name.try_into().expect("arch");
        for p in [PROFILE_BASIC, PROFILE_PLAYWRIGHT, PROFILE_E2B] {
            let json = filter_json(p).expect("json");
            let map = seccompiler::compile_from_json(json.as_bytes(), arch).expect("compile");
            assert!(map.get("default").is_some(), "{p}");
            let prog = seccomp_program(p, arch_name).expect("program");
            assert_eq!(prog.len(), map.get("default").unwrap().len());
        }
    }
}

#[test]
fn seccomp_program_errors() {
    assert_eq!(seccomp_program("off", "x86_64").unwrap_err(), "unknown seccomp profile: off");
    assert_eq!(seccomp_program("basic", "sparc").unwrap_err(), "unsupported arch for seccomp: sparc");
    let p = seccomp_program("basic", "x86_64").unwrap();
    assert!(!p.is_empty());
}

#[test]
fn resource_metrics_with_runtime() {
    let m = ResourceMetrics::default().with_runtime(50);
    assert_eq!(m.runtime_ms, Some(50));
    assert!(!m.has_usage());
    let n = ResourceMetrics { peak_rss_kb: Some(1024), cpu_time_ms: None, runtime_ms: None };
    assert!(n.has_usage());
}

#[test]
fn wait_results_become_metrics() {
    assert_eq!(metrics_from_wait(-1, 5, 5), ResourceMetrics::default());
    let m = metrics_from_wait(123, 0, 2048);
    assert_eq!(m.peak_rss_kb, Some(2048));
    assert_eq!(m.cpu_time_ms, None);
    assert_eq!(timeval_to_ms(2, 345_678), 2345);
    assert_eq!(timeval_to_ms(u64::MAX, 0), u64::MAX);
}

#[test]
fn reply_lines_are_matched_by_id() {
    assert!(matches!(read_reply_line("   ", 2), ReplyLine::Skip));
    assert!(matches!(read_reply_line(r#"{"jsonrpc":"2.0","id":1,"result":{}}"#, 2), ReplyLine::Skip));
    assert!(matches!(read_reply_line(r#"{"jsonrpc":"2.0","method":"notify"}"#, 2), ReplyLine::Skip));
    match read_reply_line(r#"{"jsonrpc":"2.0","id":2,"result":{"ok":true}}"#, 2) {
        ReplyLine::Reply(Ok(v)) => assert_eq!(v, serde_json::from_str::<serde_json::Value>(r#"{"ok":true}"#).unwrap()),
        _ => panic!("reply lost"),
    }
    match read_reply_line(r#"{"id":2,"error":{"message":"nope"}}"#, 2) {
        ReplyLine::Reply(Err(rmng::error::McpError::Tool(m))) => assert_eq!(m, "nope"),
        _ => panic!("error lost"),
    }
    match read_reply_line(r#"{"id":2,"error":{}}"#, 2) {
        ReplyLine::Reply(Err(rmng::error::McpError::Tool(m))) => assert_eq!(m, "mcp error"),
        _ => panic!("error lost"),
    }
    match read_reply_line(r#"{"id":2}"#, 2) {
        ReplyLine::Reply(Err(rmng::error::McpError::Protocol(m))) => assert_eq!(m, "response missing result"),
        _ => panic!("missing result accepted"),
    }
    assert!(matches!(read_reply_line("not json", 2), ReplyLine::Reply(Err(rmng::error::McpError::Protocol(_)))));
    match rmng::mcp_protocol::no_reply_error(7) {
        rmng::error::McpError::Protocol(m) => assert_eq!(m, "no response for id 7"),
        _ => panic!("wrong error"),
    }
}

#[test]
fn tool_text_is_taken_from_content() {
    let v = |s: &str| serde_json::from_str::<serde_json::Value>(s).unwrap();
    assert_eq!(
        extract_tool_text(&v(r#"{"content":[{"type":"text","text":"a"},{"type":"image"},{"text":"b"}]}"#)).unwrap(),
        "a\nb"
    );
    assert_eq!(extract_tool_text(&v(r#"{"content":[]}"#)).unwrap(), r#"{"content":[]}"#);
    assert_eq!(extract_tool_text(&v(r#"{"other":1}"#)).unwrap(), r#"{"other":1}"#);
    match extract_tool_text(&v(r#"{"isError":true,"content":[{"text":"bad"}]}"#)) {
        Err(rmng::error::McpError::Tool(m)) => assert_eq!(m, "bad"),
        _ => panic!("error result accepted"),
    }
    match extract_tool_text(&v(r#"{"isError":true}"#)) {
        Err(rmng::error::McpError::Tool(m)) => assert_eq!(m, "mcp tool returned error"),
        _ => panic!("error result accepted"),
    }
}

#[test]
fn protocol_messages_and_timeouts() {
    let v = |s: &str| serde_json::from_str::<serde_json::Value>(s).unwrap();
    assert_eq!(call_timeout_secs(None), 60);
    assert_eq!(call_timeout_secs(Some("5")), 5);
    assert_eq!(call_timeout_secs(Some("x")), 60);
    match call_timeout_error("git.log", 60) {
        rmng::error::McpError::Timeout(m) => assert_eq!(m, "mcp call git.log exceeded 60s"),
        _ => panic!("wrong error"),
    }
    assert_eq!(
        rpc_request(1, "initialize", initialize_params()),
        v(r#"{"jsonrpc":"2.0","id":1,"method":"initialize","params":{"protocolVersion":"2024-11-05","capabilities":{},"clientInfo":{"name":"rmng-mcp","version":"0.1.0"}}}"#)
    );
    assert_eq!(
        rpc_notification("notifications/initialized", v("{}")),
        v(r#"{"jsonrpc":"2.0","method":"notifications/initialized","params":{}}"#)
    );
    assert_eq!(tool_call_params("git_log", v("{}")), v(r#"{"name":"git_log","arguments":{}}"#));
}

#[test]
fn envelopes_are_told_apart() {
    assert_eq!(envelope_version(r#"{"action":"plan.only"}"#).unwrap(), EnvelopeVersion::Core);
    assert_eq!(envelope_version(r#"{"schema_version":"1"}"#).unwrap(), EnvelopeVersion::V1);
    assert!(matches!(envelope_version("{"), Err(rmng::error::RmngError::Serde(_))));
}

#[test]
fn call_results_are_finished() {
    use_finish_call();
}

fn use_finish_call() {
    let none = ResourceMetrics { peak_rss_kb: Some(10), cpu_time_ms: None, runtime_ms: None };
    let limits = IsolationLimits::default();
    match finish_call(CallEnd::TimedOut, "git.log", 60, Some(1), 5, none, &limits, None, vec![]) {
        Err(rmng::error::McpError::Timeout(m)) => assert_eq!(m, "mcp call git.log exceeded 60s"),
        _ => panic!("timeout lost"),
    }
    match finish_call(CallEnd::Answered(Err(rmng::error::McpError::Tool("x".into()))), "t", 60, None, 5, none, &limits, None, vec![]) {
        Err(rmng::error::McpError::Tool(m)) => assert_eq!(m, "x"),
        _ => panic!("error lost"),
    }
    let ok = finish_call(CallEnd::Answered(Ok("out".into())), "t", 60, Some(7), 42, none, &limits, None, vec![]).unwrap();
    assert_eq!(ok.output, "out");
    assert_eq!(ok.pid, Some(7));
    assert_eq!(ok.duration_ms, 42);
    assert_eq!(ok.resources.runtime_ms, Some(42));
    assert_eq!(ok.resources.peak_rss_kb, Some(10));
}

#[test]
fn disabled_profiles_do_not_warn() {
    for name in ["off", " OFF ", "none", "false", ""] {
        let limits = IsolationLimits { seccomp_profile: Some(name.into()), ..Default::default() };
        let r = build_report(&limits, None, Vec::new());
        assert!(!r.seccomp_applied);
        assert!(r.warnings.is_empty(), "{name}");
    }
}

fn sent(a: &McpAction) -> Vec<serde_json::Value> {
    match a {
        McpAction::Send(m) => m.clone(),
        _ => panic!("expected messages to send"),
    }
}

#[test]
fn exchange_sends_handshake_then_call() {
    let args: serde_json::Value = serde_json::from_str(r#"{"q":1}"#).unwrap();
    let s = McpState::Start { wire_tool: "git_log".into(), tool_args: args.clone() };
    let (s, a) = mcp_session_step(s, McpEvent::Begin);
    let m = sent(&a);
    assert_eq!(m.len(), 1);
    assert_eq!(m[0]["method"], "initialize");
    assert_eq!(m[0]["id"], 1);
    assert_eq!(m[0]["params"]["protocolVersion"], "2024-11-05");
    let (s, a) = mcp_session_step(s, McpEvent::Line(r#"{"jsonrpc":"2.0","method":"log"}"#.into()));
    assert!(matches!(a, McpAction::Read));
    let (s, a) = mcp_session_step(s, McpEvent::Line(r#"{"jsonrpc":"2.0","id":1,"result":{}}"#.into()));
    let m = sent(&a);
    assert_eq!(m.len(), 2);
    assert_eq!(m[0]["method"], "notifications/initialized");
    assert!(m[0].get("id").is_none());
    assert_eq!(m[1]["method"], "tools/call");
    assert_eq!(m[1]["id"], 2);
    assert_eq!(m[1]["params"]["name"], "git_log");
    assert_eq!(m[1]["params"]["arguments"], args);
    let (s, a) = mcp_session_step(s, McpEvent::Line(r#"{"id":1,"result":{}}"#.into()));
    assert!(matches!(a, McpAction::Read));
    let (_, a) = mcp_session_step(s, McpEvent::Line(r#"{"id":2,"result":{"content":[{"text":"done"}]}}"#.into()));
    match a {
        McpAction::Finish(Ok(t)) => assert_eq!(t, "done"),
        _ => panic!("expected the tool text"),
    }
}

#[test]
fn exchange_gives_up_after_silent_lines() {
    let s = McpState::AwaitCall { seen: 0 };
    let mut s = s;
    for _ in 0..31 {
        let (n, a) = mcp_session_step(s, McpEvent::Line(String::new()));
        assert!(matches!(a, McpAction::Read));
        s = n;
    }
    let (_, a) = mcp_session_step(s, McpEvent::Line(String::new()));
    match a {
        McpAction::Finish(Err(rmng::error::McpError::Protocol(t))) => assert_eq!(t, "no response for id 2"),
        _ => panic!("expected no response"),
    }
    let s = McpState::AwaitInit { seen: 0, wire_tool: "t".into(), tool_args: serde_json::Value::Null };
    let (_, a) = mcp_session_step(s, McpEvent::Line(r#"{"id":1,"error":{"message":"nope"}}"#.into()));
    assert!(matches!(a, McpAction::Finish(Err(rmng::error::McpError::Tool(t))) if t == "nope"));
}

#[test]
fn capability_sets_are_cleared_in_order() {
    assert_eq!(next_cap_set(0), Some(CapabilitySet::Effective));
    assert_eq!(next_cap_set(1), Some(CapabilitySet::Permitted));
    assert_eq!(next_cap_set(2), Some(CapabilitySet::Inheritable));
    assert_eq!(next_cap_set(3), Some(CapabilitySet::Bounding));
    assert_eq!(next_cap_set(4), Some(CapabilitySet::Ambient));
    assert_eq!(next_cap_set(5), None);
    let mut tried = Vec::new();
    let r = clear_sets_in_order(&mut tried);
    assert!(!tried.is_empty() && tried.len() <= 5);
    assert_eq!(tried[0], CapabilitySet::Effective);
    match r {
        Ok(()) => assert_eq!(tried.len(), 5),
        Err(m) => assert!(m.starts_with(&format!("cap_drop({:?})", tried[tried.len() - 1]))),
    }
}

#[test]
fn builders_make_json_rpc_objects() {
    let r = rpc_request(7, "m", serde_json::Value::Null);
    assert_eq!(serde_json::to_string(&r).unwrap(), r#"{"id":7,"jsonrpc":"2.0","method":"m","params":null}"#);
    let n = rpc_notification("x", serde_json::Value::Bool(true));
    assert_eq!(serde_json::to_string(&n).unwrap(), r#"{"jsonrpc":"2.0","method":"x","params":true}"#);
    let p = tool_call_params("a_b", serde_json::Value::Null);
    assert_eq!(serde_json::to_string(&p).unwrap(), r#"{"arguments":null,"name":"a_b"}"#);
    let i = initialize_params();
    assert_eq!(i["clientInfo"]["name"], "rmng-mcp");
    assert_eq!(i["capabilities"], serde_json::Value::Object(Default::default()));
}

#[test]
fn call_report_keeps_every_limit() {
    let limits = IsolationLimits {
        memory_mb: Some(256),
        pids_max: Some(32),
        new_session: true,
        cgroup: true,
        no_new_privs: true,
        seccomp_profile: Some("bogus".into()),
        drop_capabilities: true,
        ..Default::default()
    };
    let r = call_isolation_report(&limits, None, vec!["first".to_string()]);
    assert_eq!(r.rlimit_as, Some(256));
    assert_eq!(r.rlimit_nproc, Some(32));
    assert!(r.new_session && r.no_new_privs && r.capabilities_dropped);
    assert_eq!(r.seccomp_profile, None);
    assert_eq!(
        r.warnings,
        vec!["first".to_string(), "cgroup limits not applied".to_string(), "seccomp: unknown profile Some(\"bogus\")".to_string()]
    );
}
