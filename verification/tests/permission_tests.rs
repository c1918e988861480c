use rmng::allowlist::{McpAllowlist, McpServerConfig};
use rmng::intent::{CoreIntent, Intent, IntentKind, ToolRequest};
use rmng::permission::{PermissionGate, PermissionVerdict};
use uuid::Uuid;

fn json(raw: &str) -> serde_json::Value {
    serde_json::from_str(raw).unwrap()
}

/// Native tools named by the integration manifests under test.
fn fixture_tools() -> Vec<String> {
    ["github.pr_status", "git.diff", "git.status", "kernel.apply_patches", "kernel.build", "kernel.status"]
        .iter()
        .map(|s| s.to_string())
        .collect()
}

fn server(command: &str, args: &[&str], tools: &[&str]) -> McpServerConfig {
    McpServerConfig {
        enabled: true,
        command: command.into(),
        args: args.iter().map(|s| s.to_string()).collect(),
        allowed_tools: tools.iter().map(|s| s.to_string()).collect(),
        isolation: None,
    }
}

fn gate_with(name: &str, cfg: McpServerConfig) -> PermissionGate {
    let mut list = McpAllowlist::new();
    list.insert(name.into(), cfg);
    PermissionGate::new(fixture_tools()).with_mcp_allowlist(list)
}

fn test_gate_with_mcp() -> PermissionGate {
    gate_with("git", server("uvx", &["mcp-server-git"], &["git.log", "git.diff", "git.status"]))
}

fn test_gate_with_github_mcp() -> PermissionGate {
    gate_with("github", server("npx", &["@github/github-mcp-server"], &["search_issues", "list_issues", "get_issue"]))
}

fn test_gate_with_mem0_mcp() -> PermissionGate {
    gate_with(
        "mem0",
        server("uvx", &["mem0-mcp-server"], &["add_memory", "search_memories", "get_memory", "delete_memory"]),
    )
}

fn proxy(server: &str, tool: &str, args: &str) -> CoreIntent {
    CoreIntent::McpProxy { mcp_server: server.into(), mcp_tool: tool.into(), mcp_args: json(args), metadata: None }
}

fn tool_intent(summary: &str, name: &str) -> Intent {
    Intent {
        schema_version: "1".into(),
        intent_id: Uuid::new_v4(),
        kind: IntentKind::ToolRequest,
        summary: summary.into(),
        tool: Some(ToolRequest { name: name.into(), args: json("{}") }),
    }
}

/// Builds an allowlist from the TOML text of `~/.rmng/mcp-allowlist.toml`.
fn allowlist_from_toml(raw: &str) -> McpAllowlist {
    let table: toml::Table = toml::from_str(raw).unwrap();
    let mut list = McpAllowlist::new();
    if let Some(servers) = table.get("servers").and_then(|v| v.as_table()) {
        for (name, entry) in servers {
            let strings = |key: &str| -> Vec<String> {
                entry
                    .get(key)
                    .and_then(|v| v.as_array())
                    .map(|a| a.iter().filter_map(|x| x.as_str()).map(|s| s.to_string()).collect())
                    .unwrap_or_default()
            };
            list.insert(
                name.clone(),
                McpServerConfig {
                    enabled: entry.get("enabled").and_then(|v| v.as_bool()).unwrap(),
                    command: entry.get("command").and_then(|v| v.as_str()).unwrap().to_string(),
                    args: strings("args"),
                    allowed_tools: strings("allowed_tools"),
                    isolation: None,
                },
            );
        }
    }
    list
}

#[test]
fn parses_example_structure() {
    let raw = r#"
[servers.github]
enabled = true
command = "npx"
args = ["@github/github-mcp-server"]
allowed_tools = ["get_issue", "create_issue"]

[servers.git]
enabled = true
command = "uvx"
args = ["mcp-server-git"]
allowed_tools = ["git.log"]
"#;
    let list = allowlist_from_toml(raw);
    assert!(list.is_tool_allowed("git", "git.log"));
    assert!(!list.is_tool_allowed("git", "git.commit"));
    assert!(!list.is_tool_allowed("unknown", "git.log"));
}

#[test]
fn allows_git_status() {
    let gate = PermissionGate::new(fixture_tools());
    assert!(matches!(gate.evaluate(&tool_intent("git", "git.status")), PermissionVerdict::Allow));
}

#[test]
fn denies_unknown_tool() {
    let gate = PermissionGate::new(fixture_tools());
    assert!(matches!(gate.evaluate(&tool_intent("test", "system.rm_rf")), PermissionVerdict::Deny(_)));
}

#[test]
fn allows_mcp_github_search_issues() {
    let gate = test_gate_with_github_mcp();
    let intent = proxy("github", "search_issues", r#"{"query": "repo:Ishwanku/RMNG-OS is:open"}"#);
    assert!(matches!(gate.evaluate_core(&intent), PermissionVerdict::Allow));
}

#[test]
fn allows_mcp_git_log() {
    let gate = test_gate_with_mcp();
    assert!(matches!(gate.evaluate_core(&proxy("git", "git.log", "{}")), PermissionVerdict::Allow));
}

#[test]
fn denies_unconfigured_mcp_server() {
    let gate = PermissionGate::new(fixture_tools()).with_mcp_allowlist(McpAllowlist::default());
    assert!(matches!(gate.evaluate_core(&proxy("github", "create_issue", "{}")), PermissionVerdict::Deny(_)));
}

#[test]
fn allows_mcp_fetch() {
    let gate = gate_with("fetch", server("npx", &["-y", "@modelcontextprotocol/server-fetch"], &["fetch"]));
    let intent = proxy("fetch", "fetch", r#"{"url": "https://example.com"}"#);
    assert!(matches!(gate.evaluate_core(&intent), PermissionVerdict::Allow));
}

#[test]
fn allows_mcp_markitdown() {
    let gate = gate_with("markitdown", server("uvx", &["markitdown-mcp"], &["convert_to_markdown"]));
    let intent = proxy("markitdown", "convert_to_markdown", r#"{"uri": "https://example.com/doc.pdf"}"#);
    assert!(matches!(gate.evaluate_core(&intent), PermissionVerdict::Allow));
}

#[test]
fn allows_mcp_github_list_issues() {
    let gate = test_gate_with_github_mcp();
    let intent = proxy("github", "list_issues", r#"{"owner": "Ishwanku", "repo": "RMNG-OS"}"#);
    assert!(matches!(gate.evaluate_core(&intent), PermissionVerdict::Allow));
}

#[test]
fn allows_mcp_github_get_issue() {
    let gate = test_gate_with_github_mcp();
    let intent = proxy("github", "get_issue", r#"{"owner": "Ishwanku", "repo": "RMNG-OS", "issue_number": 1}"#);
    assert!(matches!(gate.evaluate_core(&intent), PermissionVerdict::Allow));
}

#[test]
fn denies_mcp_github_create_issue() {
    let gate = test_gate_with_github_mcp();
    assert!(matches!(gate.evaluate_core(&proxy("github", "create_issue", "{}")), PermissionVerdict::Deny(_)));
}

#[test]
fn allows_mcp_git_diff() {
    let gate = test_gate_with_mcp();
    let intent = proxy("git", "git.diff", r#"{"repo_path": "/tmp/repo"}"#);
    assert!(matches!(gate.evaluate_core(&intent), PermissionVerdict::Allow));
}

#[test]
fn allows_mcp_git_status() {
    let gate = test_gate_with_mcp();
    let intent = proxy("git", "git.status", r#"{"repo_path": "/tmp/repo"}"#);
    assert!(matches!(gate.evaluate_core(&intent), PermissionVerdict::Allow));
}

#[test]
fn allows_mcp_mem0_search() {
    let gate = test_gate_with_mem0_mcp();
    let intent = proxy("mem0", "search_memories", r#"{"query": "RMNG", "user_id": "rmng-os"}"#);
    assert!(matches!(gate.evaluate_core(&intent), PermissionVerdict::Allow));
}

#[test]
fn allows_mcp_mem0_add() {
    let gate = test_gate_with_mem0_mcp();
    let intent = proxy("mem0", "add_memory", r#"{"messages": [], "user_id": "rmng-os"}"#);
    assert!(matches!(gate.evaluate_core(&intent), PermissionVerdict::Allow));
}

#[test]
fn denies_mcp_mem0_delete_all() {
    let gate = test_gate_with_mem0_mcp();
    assert!(matches!(gate.evaluate_core(&proxy("mem0", "delete_all_memories", "{}")), PermissionVerdict::Deny(_)));
}

#[test]
fn denies_disallowed_mcp_tool() {
    let gate = test_gate_with_mcp();
    assert!(matches!(gate.evaluate_core(&proxy("git", "git.commit", "{}")), PermissionVerdict::Deny(_)));
}

#[test]
fn denial_reasons_name_the_cause() {
    let mut disabled = server("uvx", &["x"], &["t"]);
    disabled.enabled = false;
    let gate = gate_with("off", disabled);
    assert_eq!(gate.evaluate_core(&proxy("off", "t", "{}")), PermissionVerdict::Deny("mcp server disabled: off".into()));
    assert_eq!(
        gate.evaluate_core(&proxy("nope", "t", "{}")),
        PermissionVerdict::Deny("mcp server not configured: nope".into())
    );
    let git = test_gate_with_mcp();
    assert_eq!(
        git.evaluate_core(&proxy("git", "git.push", "{}")),
        PermissionVerdict::Deny("mcp tool not allowed: git.git.push".into())
    );
    let native = CoreIntent::ToolExecute { target: "rm".into(), parameters: json("{}"), metadata: None };
    assert_eq!(git.evaluate_core(&native), PermissionVerdict::Deny("tool not allowed: rm".into()));
    assert!(git.mcp_server_config("git").is_some());
    assert!(gate.mcp_server_config("off").is_none());
}

#[test]
fn v1_and_v2_verdicts_agree() {
    let gate = PermissionGate::new(fixture_tools());
    for name in ["git.status", "kernel.build", "curl"] {
        let v1 = gate.evaluate(&tool_intent("s", name));
        let v2 = gate.evaluate_core(&CoreIntent::ToolExecute { target: name.into(), parameters: json("{}"), metadata: None });
        assert_eq!(v1, v2);
    }
}

#[test]
fn plans_always_pass() {
    let gate = PermissionGate::new(Vec::new());
    let plan = CoreIntent::PlanOnly { reasoning: "think".into(), metadata: None };
    assert_eq!(gate.evaluate_core(&plan), PermissionVerdict::Allow);
    let mut v1 = tool_intent("s", "x");
    v1.kind = IntentKind::Clarify;
    assert_eq!(gate.evaluate(&v1), PermissionVerdict::Allow);
    v1.kind = IntentKind::ToolRequest;
    v1.tool = None;
    assert_eq!(gate.evaluate(&v1), PermissionVerdict::Deny("tool_request missing tool field".into()));
}

#[test]
fn insert_replaces_and_keeps_others() {
    let mut list = McpAllowlist::new();
    list.insert("a".into(), server("x", &[], &["one"]));
    list.insert("b".into(), server("y", &[], &["two"]));
    list.insert("a".into(), server("z", &[], &["three"]));
    assert_eq!(list.servers().len(), 2);
    assert!(list.is_tool_allowed("a", "three"));
    assert!(!list.is_tool_allowed("a", "one"));
    assert!(list.is_tool_allowed("b", "two"));
    assert_eq!(list.get("a").unwrap().command, "z");
    assert_eq!(list.server_config("b").unwrap().command, "y");
}
