use rmng::numbers::parse_unsigned;
use rmng::paths::join;
use rmng::text::{contains_pair, decimal_string, str_equal, trim_bounds, trimmed_lower_eq};
use rmng::observe::{audit_line, fallback_note, handler_tag, server_line, session_tokens, tokens_label, TokenCounts};
use rmng::audit::AuditTrack;
use rmng::allowlist::McpServerConfig;

#[test]
fn decimal_rendering() {
    assert_eq!(decimal_string(0), "0");
    assert_eq!(decimal_string(7), "7");
    assert_eq!(decimal_string(120), "120");
    assert_eq!(decimal_string(u64::MAX), u64::MAX.to_string());
}

#[test]
fn trimming_and_case() {
    assert_eq!(trim_bounds("  ab \n"), (2, 4));
    assert_eq!(trim_bounds("\u{3000}x"), (1, 2));
    assert_eq!(trim_bounds("   "), (3, 3));
    assert!(trimmed_lower_eq(" SkIp ", "skip"));
    assert!(!trimmed_lower_eq("skips", "skip"));
    assert!(trimmed_lower_eq("", ""));
    assert!(str_equal("é", "é"));
    assert!(contains_pair("a..b", '.', '.'));
    assert!(!contains_pair("a.b.", '.', '.'));
}

#[test]
fn unsigned_parsing_matches_std() {
    for s in ["0", "42", "+42", "-1", "", "+", "1 ", "007", "18446744073709551615", "18446744073709551616", "4294967296"] {
        assert_eq!(parse_unsigned(s, u64::MAX), s.parse::<u64>().ok(), "{s}");
        assert_eq!(parse_unsigned(s, u32::MAX as u64), s.parse::<u32>().ok().map(|v| v as u64), "{s}");
    }
}

#[test]
fn path_joining() {
    assert_eq!(join("/a", "b"), "/a/b");
    assert_eq!(join("/a/", "b"), "/a/b");
    assert_eq!(join("", "b"), "b");
    assert_eq!(join("/a", "/b"), "/b");
    assert_eq!(join("/a", ""), "/a/");
    assert_eq!(join("/a", "") , std::path::PathBuf::from("/a").join("").to_string_lossy());
}

#[test]
fn observe_lines() {
    use_observe_lines();
}

fn use_observe_lines() {
    let calls = vec![
        TokenCounts { prompt: Some(10), completion: Some(5), total: None },
        TokenCounts { prompt: None, completion: None, total: Some(7) },
        TokenCounts { prompt: Some(1), completion: None, total: None },
    ];
    assert_eq!(session_tokens(&calls), 22);
    assert_eq!(tokens_label(&calls[0]), "tokens=10+5");
    assert_eq!(tokens_label(&calls[1]), "tokens=7");
    assert_eq!(tokens_label(&calls[2]), "tokens=-");
    assert_eq!(fallback_note(0), "");
    assert_eq!(fallback_note(2), " fallback#2");
    assert_eq!(handler_tag(true), "handler");
    assert_eq!(handler_tag(false), "manifest-only");
    assert_eq!(
        audit_line("ok", "git.status", Some(AuditTrack::Native), Some(12), Some("d")),
        "ok git.status native 12ms \u{2014} d"
    );
    assert_eq!(audit_line("deny", "deny", None, None, None), "deny deny - - \u{2014} ");
    let cfg = McpServerConfig {
        enabled: false,
        command: "uvx".into(),
        args: vec![],
        allowed_tools: vec!["a".into(), "b".into()],
        isolation: None,
    };
    assert_eq!(server_line("git", &cfg), "git [disabled] uvx \u{2014} tools: a, b");
}
