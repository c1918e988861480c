use rmng::resource_rollup::{rank_entities, rollup_mcp_resources, stable_order, EntityResource, ResourceSample};

fn sample(action: &str, agent: Option<&str>, rss: Option<u64>, cpu: Option<u64>, ms: Option<u64>) -> ResourceSample {
    ResourceSample {
        timestamp: "2026-01-01T00:00:00+00:00".into(),
        is_mcp: true,
        is_today: true,
        agent_id: agent.map(|a| a.to_string()),
        mcp_server: Some("git".into()),
        action: action.into(),
        peak_rss_kb: rss,
        cpu_time_ms: cpu,
        duration_ms: ms,
    }
}

#[test]
fn rolls_up_mcp_resources_by_agent() {
    let e1 = sample("mcp.proxy:git.status", Some("repo-keeper"), Some(4096), Some(100), Some(250));
    let e2 = sample("mcp.proxy:git.log", Some("repo-keeper"), Some(8192), Some(50), Some(120));
    let r = rollup_mcp_resources(&vec![e1, e2], "now".into());
    assert_eq!(r.total_mcp_calls, 2);
    assert_eq!(r.peak_rss_kb_max, 8192);
    assert_eq!(r.cpu_time_ms_total, 150);
    assert_eq!(r.by_agent_ranked[0].id, "repo-keeper");
    assert_eq!(r.by_agent_ranked[0].peak_rss_kb_max, 8192);
    assert_eq!(r.recent_high_resource.len(), 2);
}

#[test]
fn rollup_skips_other_categories_and_groups_missing_agent() {
    let mut llm = sample("nervous.llm_call", Some("a"), Some(1), Some(1), Some(1));
    llm.is_mcp = false;
    let mut old = sample("mcp.proxy:x", None, None, None, Some(5));
    old.is_today = false;
    let e = sample("mcp.proxy:y", Some("b"), Some(10), None, Some(7));
    let r = rollup_mcp_resources(&vec![llm, old, e], "t".into());
    assert_eq!(r.total_mcp_calls, 2);
    assert_eq!(r.mcp_calls_today, 1);
    assert_eq!(r.runtime_ms_total, 12);
    assert_eq!(r.by_agent.len(), 2);
    assert_eq!(r.by_agent[0].0, "-");
    assert_eq!(r.by_agent[0].1, EntityResource { mcp_calls: 1, peak_rss_kb_max: 0, cpu_time_ms_total: 0, runtime_ms_total: 5 });
    assert_eq!(r.by_agent_today_ranked.len(), 1);
    assert_eq!(r.by_agent_today_ranked[0].id, "b");
    assert_eq!(r.recent_high_resource.len(), 1);
    assert_eq!(r.recent_high_resource[0].action, "mcp.proxy:y");
    assert_eq!(r.generated_at, "t");
}

#[test]
fn heaviest_calls_are_sorted_and_capped() {
    let mut entries = Vec::new();
    for i in 0..12u64 {
        entries.push(sample(&format!("call{i}"), Some("a"), Some(i % 4), Some(i), None));
    }
    let r = rollup_mcp_resources(&entries, "t".into());
    assert_eq!(r.recent_high_resource.len(), 10);
    assert_eq!(r.recent_high_resource[0].action, "call11");
    for w in r.recent_high_resource.windows(2) {
        let s0 = w[0].peak_rss_kb.unwrap() * 1000 + w[0].cpu_time_ms.unwrap();
        let s1 = w[1].peak_rss_kb.unwrap() * 1000 + w[1].cpu_time_ms.unwrap();
        assert!(s0 >= s1);
    }
}

#[test]
fn ranking_is_stable_and_capped_for_top_consumers() {
    let mut entries = Vec::new();
    for name in ["a", "b", "c", "d", "e", "f"] {
        entries.push(sample("x", Some(name), Some(100), Some(5), None));
    }
    entries.push(sample("x", Some("g"), Some(100), Some(9), None));
    let r = rollup_mcp_resources(&entries, "t".into());
    let ids: Vec<&str> = r.by_agent_ranked.iter().map(|e| e.id.as_str()).collect();
    assert_eq!(ids, vec!["g", "a", "b", "c", "d", "e", "f"]);
    assert_eq!(r.top_consumers.len(), 5);
    assert_eq!(r.top_consumers[4].id, "d");
}

#[test]
fn stable_order_sorts_descending_keeping_ties() {
    let keys = vec![(1, 0), (3, 1), (3, 1), (2, 9), (3, 2)];
    assert_eq!(stable_order(&keys), vec![4, 1, 2, 3, 0]);
    assert!(stable_order(&Vec::new()).is_empty());
    let groups = vec![
        ("x".to_string(), EntityResource { mcp_calls: 1, peak_rss_kb_max: 1, cpu_time_ms_total: 1, runtime_ms_total: 1 }),
        ("y".to_string(), EntityResource { mcp_calls: 2, peak_rss_kb_max: 2, cpu_time_ms_total: 0, runtime_ms_total: 0 }),
    ];
    let ranked = rank_entities(&groups);
    assert_eq!(ranked[0].id, "y");
    assert_eq!(ranked[1].mcp_calls, 1);
}

#[test]
fn agent_aggregates_add_up_to_totals() {
    let entries = vec![
        sample("a1", Some("x"), Some(300), Some(10), Some(100)),
        sample("a2", Some("y"), Some(900), Some(5), Some(50)),
        sample("a3", None, None, Some(1), Some(2)),
        sample("a4", Some("x"), Some(100), None, Some(7)),
    ];
    let r = rollup_mcp_resources(&entries, "t".into());
    let calls: u64 = r.by_agent.iter().map(|(_, e)| e.mcp_calls).sum();
    let cpu: u64 = r.by_agent.iter().map(|(_, e)| e.cpu_time_ms_total).sum();
    let runtime: u64 = r.by_agent.iter().map(|(_, e)| e.runtime_ms_total).sum();
    let peak: u64 = r.by_agent.iter().map(|(_, e)| e.peak_rss_kb_max).max().unwrap();
    assert_eq!(calls, r.total_mcp_calls);
    assert_eq!(cpu, r.cpu_time_ms_total);
    assert_eq!(runtime, r.runtime_ms_total);
    assert_eq!(peak, r.peak_rss_kb_max);
    assert_eq!((calls, cpu, runtime, peak), (4, 16, 159, 900));
}
