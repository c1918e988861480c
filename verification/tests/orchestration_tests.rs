use rmng::continuation::{ChainContinuation, ContinuationStatus, DEFAULT_CONTINUATION_PROMPT};
use rmng::intent::Metadata;
use rmng::orchestration::{parse_hop_failure_policy, HandoffChainOptions, HopFailurePolicy};

fn base_meta() -> Metadata {
    Metadata {
        trace_id: None,
        skill_name: None,
        session_id: None,
        handoff_from: None,
        handoff_to: None,
        handoff_chain: None,
        handoff_return_to: None,
        chain_id: None,
        hop_failure_policy: None,
        hop_retry_max: None,
    }
}

#[test]
fn continuation_advances_steps() {
    let mut c = ChainContinuation::new("swarm-coordinator", "start task", 3);
    assert_eq!(c.current_prompt(), "start task");
    c.mark_running();
    c.advance_after_dispatch("repo-keeper");
    assert_eq!(c.step, 1);
    assert_eq!(c.active_agent, "repo-keeper");
    assert!(c.should_run());
}

#[test]
fn continuation_stops_at_max() {
    let mut c = ChainContinuation::new("a", "go", 1);
    c.mark_running();
    assert!(c.at_max_steps());
    c.finish(ContinuationStatus::Exhausted);
    assert!(!c.should_run());
}

#[test]
fn continuation_prompt_after_first_step_is_default() {
    let mut c = ChainContinuation::new("a", "go", 5);
    c.advance_after_dispatch("b");
    assert_eq!(c.current_prompt(), DEFAULT_CONTINUATION_PROMPT);
    c.step_prompt_assign("next please");
    assert_eq!(c.current_prompt(), "next please");
    assert_eq!(c.start_agent, "a");
}

#[test]
fn continuation_without_initial_prompt_uses_default() {
    let mut c = ChainContinuation::new("a", "go", 2);
    c.initial_prompt = None;
    assert_eq!(c.current_prompt(), DEFAULT_CONTINUATION_PROMPT);
}

#[test]
fn continuation_zero_budget_never_runs() {
    let c = ChainContinuation::new("a", "go", 0);
    assert!(!c.should_run());
    assert!(c.at_max_steps());
}

#[test]
fn continuation_advance_past_last_step_stops() {
    let mut c = ChainContinuation::new("a", "go", 2);
    c.mark_running();
    c.advance_after_dispatch("b");
    assert!(c.at_max_steps());
    c.advance_after_dispatch("c");
    assert!(!c.should_run());
    assert_eq!(c.status, ContinuationStatus::Running);
}

#[test]
fn continuation_at_max_steps_with_largest_step() {
    let mut c = ChainContinuation::new("a", "go", u32::MAX);
    c.step = u32::MAX;
    assert!(c.at_max_steps());
    assert!(!c.should_run());
}

#[test]
fn parses_hop_failure_policies() {
    assert_eq!(parse_hop_failure_policy("retry"), Some(HopFailurePolicy::Retry));
    assert_eq!(parse_hop_failure_policy("SKIP"), Some(HopFailurePolicy::Skip));
    assert_eq!(parse_hop_failure_policy("abort"), Some(HopFailurePolicy::Abort));
    assert!(parse_hop_failure_policy("unknown").is_none());
}

#[test]
fn hop_policy_blank_and_padded_names() {
    assert_eq!(parse_hop_failure_policy(""), Some(HopFailurePolicy::Abort));
    assert_eq!(parse_hop_failure_policy("   "), Some(HopFailurePolicy::Abort));
    assert_eq!(parse_hop_failure_policy("  Retry\n"), Some(HopFailurePolicy::Retry));
    assert_eq!(parse_hop_failure_policy("re try"), None);
}

#[test]
fn options_default_is_abort() {
    let opts = HandoffChainOptions::from_metadata(&base_meta());
    assert_eq!(opts.hop_failure_policy, HopFailurePolicy::Abort);
    assert_eq!(opts.hop_retry_max, 2);
}

#[test]
fn options_from_metadata() {
    let mut meta = base_meta();
    meta.hop_failure_policy = Some("skip".into());
    meta.hop_retry_max = Some(5);
    let opts = HandoffChainOptions::from_metadata(&meta);
    assert_eq!(opts.hop_failure_policy, HopFailurePolicy::Skip);
    assert_eq!(opts.hop_retry_max, 5);
}

#[test]
fn options_retry_bound_is_at_least_one() {
    let mut meta = base_meta();
    meta.hop_retry_max = Some(0);
    meta.hop_failure_policy = Some("bogus".into());
    let opts = HandoffChainOptions::from_metadata(&meta);
    assert_eq!(opts.hop_retry_max, 1);
    assert_eq!(opts.hop_failure_policy, HopFailurePolicy::Abort);
    assert_eq!(HandoffChainOptions::default().hop_retry_max, HandoffChainOptions::DEFAULT_RETRY_MAX);
}
