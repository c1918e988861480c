//! Roll-up of MCP subprocess resource usage from the audit trail: totals,
//! per-agent aggregates, rankings of the heaviest agents, and the calls
//! with the largest footprint.

use vstd::prelude::*;
use crate::text::{clone_opt_string, owned, str_equal};

verus! {

/// What the roll-up reads of one audit entry. `is_mcp` and `is_today` are
/// the entry's category and whether its UTC day is the current one;
/// `timestamp` is its RFC 3339 rendering.
#[derive(Debug, Clone)]
pub struct ResourceSample {
    pub timestamp: String,
    pub is_mcp: bool,
    pub is_today: bool,
    pub agent_id: Option<String>,
    pub mcp_server: Option<String>,
    pub action: String,
    pub peak_rss_kb: Option<u64>,
    pub cpu_time_ms: Option<u64>,
    pub duration_ms: Option<u64>,
}

/// Aggregate over a group of MCP calls.
#[derive(Debug, Clone, Copy, PartialEq, Eq)]
pub struct EntityResource {
    pub mcp_calls: u64,
    pub peak_rss_kb_max: u64,
    pub cpu_time_ms_total: u64,
    pub runtime_ms_total: u64,
}

impl Default for EntityResource {
    fn default() -> (r: Self)
        ensures
            r == (EntityResource { mcp_calls: 0, peak_rss_kb_max: 0, cpu_time_ms_total: 0, runtime_ms_total: 0 }),
    {
        EntityResource { mcp_calls: 0, peak_rss_kb_max: 0, cpu_time_ms_total: 0, runtime_ms_total: 0 }
    }
}

/// Mathematical aggregate: number of calls, largest peak RSS, summed CPU
/// time and summed runtime.
pub ghost struct Usage {
    pub calls: nat,
    pub peak: nat,
    pub cpu: nat,
    pub runtime: nat,
}

pub open spec fn zero_usage() -> Usage {
    Usage { calls: 0, peak: 0, cpu: 0, runtime: 0 }
}

pub open spec fn opt_or_zero(o: Option<u64>) -> nat {
    match o {
        Some(v) => v as nat,
        None => 0,
    }
}

/// One more call folded into an aggregate.
pub open spec fn add_usage(u: Usage, e: ResourceSample) -> Usage {
    Usage {
        calls: u.calls + 1,
        peak: if opt_or_zero(e.peak_rss_kb) > u.peak { opt_or_zero(e.peak_rss_kb) } else { u.peak },
        cpu: u.cpu + opt_or_zero(e.cpu_time_ms),
        runtime: u.runtime + opt_or_zero(e.duration_ms),
    }
}

/// Aggregate of the samples that satisfy `p`.
pub open spec fn usage_where(s: Seq<ResourceSample>, p: spec_fn(ResourceSample) -> bool) -> Usage
    decreases s.len(),
{
    if s.len() == 0 {
        zero_usage()
    } else {
        let u = usage_where(s.drop_last(), p);
        if p(s.last()) {
            add_usage(u, s.last())
        } else {
            u
        }
    }
}

/// The agent an entry is attributed to: its agent id, or `-` when it has none.
pub open spec fn sample_key(e: ResourceSample) -> Seq<char> {
    match e.agent_id {
        Some(a) => a@,
        None => "-"@,
    }
}

/// MCP calls (of today only, when `today_only`).
pub open spec fn in_scope(e: ResourceSample, today_only: bool) -> bool {
    e.is_mcp && (!today_only || e.is_today)
}

pub open spec fn scope_pred(today_only: bool) -> spec_fn(ResourceSample) -> bool {
    |e: ResourceSample| in_scope(e, today_only)
}

/// MCP calls (of today only, when `today_only`) of agent `k`.
pub open spec fn agent_pred(k: Seq<char>, today_only: bool) -> spec_fn(ResourceSample) -> bool {
    |e: ResourceSample| in_scope(e, today_only) && sample_key(e) == k
}

pub open spec fn ent_usage(e: EntityResource) -> Usage {
    Usage {
        calls: e.mcp_calls as nat,
        peak: e.peak_rss_kb_max as nat,
        cpu: e.cpu_time_ms_total as nat,
        runtime: e.runtime_ms_total as nat,
    }
}

proof fn lemma_usage_step(s: Seq<ResourceSample>, i: int, p: spec_fn(ResourceSample) -> bool)
    requires
        0 <= i < s.len(),
    ensures
        usage_where(s.take(i + 1), p) == if p(s[i]) {
            add_usage(usage_where(s.take(i), p), s[i])
        } else {
            usage_where(s.take(i), p)
        },
{
    assert(s.take(i + 1).drop_last() =~= s.take(i));
}

/// A narrower predicate aggregates no more than a wider one, and a prefix
/// no more than the whole sequence.
proof fn lemma_usage_bounded(s: Seq<ResourceSample>, p: spec_fn(ResourceSample) -> bool, q: spec_fn(ResourceSample) -> bool)
    requires
        forall|e: ResourceSample| #[trigger] p(e) ==> q(e),
    ensures
        usage_where(s, p).calls <= usage_where(s, q).calls,
        usage_where(s, p).cpu <= usage_where(s, q).cpu,
        usage_where(s, p).runtime <= usage_where(s, q).runtime,
        usage_where(s, p).peak <= usage_where(s, q).peak,
        usage_where(s, q).calls <= s.len(),
    decreases s.len(),
{
    if s.len() > 0 {
        lemma_usage_bounded(s.drop_last(), p, q);
    }
}

proof fn lemma_usage_prefix(s: Seq<ResourceSample>, i: int, p: spec_fn(ResourceSample) -> bool)
    requires
        0 <= i <= s.len(),
    ensures
        usage_where(s.take(i), p).cpu <= usage_where(s, p).cpu,
        usage_where(s.take(i), p).runtime <= usage_where(s, p).runtime,
        usage_where(s.take(i), p).calls <= usage_where(s, p).calls,
    decreases s.len() - i,
{
    if i < s.len() {
        lemma_usage_prefix(s, i + 1, p);
        lemma_usage_step(s, i, p);
    } else {
        assert(s.take(i) =~= s);
    }
}

proof fn lemma_zero_calls(s: Seq<ResourceSample>, p: spec_fn(ResourceSample) -> bool)
    requires
        usage_where(s, p).calls == 0,
    ensures
        usage_where(s, p) == zero_usage(),
    decreases s.len(),
{
    if s.len() > 0 {
        lemma_zero_calls(s.drop_last(), p);
    }
}

/// The samples fit the counters: total CPU time and total runtime of the
/// MCP calls fit in `u64`.
pub open spec fn fits(s: Seq<ResourceSample>) -> bool {
    &&& usage_where(s, scope_pred(false)).cpu <= u64::MAX
    &&& usage_where(s, scope_pred(false)).runtime <= u64::MAX
}

fn add_resource(acc: &mut EntityResource, e: &ResourceSample)
    requires
        ent_usage(*old(acc)).cpu + opt_or_zero(e.cpu_time_ms) <= u64::MAX,
        ent_usage(*old(acc)).runtime + opt_or_zero(e.duration_ms) <= u64::MAX,
        ent_usage(*old(acc)).calls + 1 <= u64::MAX,
    ensures
        ent_usage(*final(acc)) == add_usage(ent_usage(*old(acc)), *e),
{
    acc.mcp_calls = acc.mcp_calls + 1;
    if let Some(rss) = e.peak_rss_kb {
        if rss > acc.peak_rss_kb_max {
            acc.peak_rss_kb_max = rss;
        }
    }
    if let Some(cpu) = e.cpu_time_ms {
        acc.cpu_time_ms_total = acc.cpu_time_ms_total + cpu;
    }
    if let Some(ms) = e.duration_ms {
        acc.runtime_ms_total = acc.runtime_ms_total + ms;
    }
}

/// Groups of the samples `s` by agent, in order of first appearance: keys
/// are distinct, each group holds the aggregate of its agent's calls, and
/// every agent with a call in scope has a group.
pub open spec fn groups_ok(groups: Seq<(String, EntityResource)>, s: Seq<ResourceSample>, today_only: bool) -> bool {
    &&& forall|a: int, b: int| 0 <= a < b < groups.len() ==> (#[trigger] groups[a]).0@ != (#[trigger] groups[b]).0@
    &&& forall|j: int| 0 <= j < groups.len() ==> ent_usage((#[trigger] groups[j]).1) == usage_where(s, agent_pred(groups[j].0@, today_only))
    &&& forall|j: int| 0 <= j < groups.len() ==> usage_where(s, agent_pred((#[trigger] groups[j]).0@, today_only)).calls > 0
    &&& forall|k: Seq<char>| #[trigger] usage_where(s, agent_pred(k, today_only)).calls > 0 ==>
            exists|j: int| 0 <= j < groups.len() && (#[trigger] groups[j]).0@ == k
}

fn sample_key_of(e: &ResourceSample) -> (r: String)
    ensures
        r@ == sample_key(*e),
{
    match &e.agent_id {
        Some(a) => a.clone(),
        None => owned("-"),
    }
}

/// Folds the sample `all[i]` into the groups of `all.take(i)`.
fn group_add(groups: &mut Vec<(String, EntityResource)>, all: &Vec<ResourceSample>, i: usize, today_only: bool)
    requires
        i < all@.len(),
        fits(all@),
        groups_ok(old(groups)@, all@.take(i as int), today_only),
    ensures
        groups_ok(final(groups)@, all@.take(i + 1), today_only),
{
    let ghost s = all@;
    let ghost pre = s.take(i as int);
    let ghost post = s.take(i + 1);
    let e = &all[i];
    let total_len = all.len();
    proof {
        assert forall|k: Seq<char>| #[trigger] usage_where(post, agent_pred(k, today_only)) == if agent_pred(k, today_only)(s[i as int]) {
            add_usage(usage_where(pre, agent_pred(k, today_only)), s[i as int])
        } else {
            usage_where(pre, agent_pred(k, today_only))
        } by {
            lemma_usage_step(s, i as int, agent_pred(k, today_only));
        }
    }
    let in_scope_now = e.is_mcp && (!today_only || e.is_today);
    if !in_scope_now {
        return;
    }
    let key = sample_key_of(e);
    let ghost k = key@;
    proof {
        lemma_usage_bounded(post, agent_pred(k, today_only), scope_pred(false));
        lemma_usage_bounded(pre, agent_pred(k, today_only), agent_pred(k, today_only));
        lemma_usage_prefix(s, i + 1, scope_pred(false));
        assert(pre.len() == i);
    }
    let mut j: usize = 0;
    let n = groups.len();
    while j < n && !str_equal(groups[j].0.as_str(), key.as_str())
        invariant
            n == groups@.len(),
            j <= n,
            key@ == k,
            forall|m: int| 0 <= m < j ==> (#[trigger] groups@[m]).0@ != k,
        decreases n - j,
    {
        j = j + 1;
    }
    let ghost old_groups = groups@;
    if j < n {
        let mut entry = groups[j].1;
        proof {
            assert(ent_usage(old_groups[j as int].1) == usage_where(pre, agent_pred(k, today_only)));
            assert(usage_where(pre, agent_pred(k, today_only)).calls <= i);
            assert(i < total_len);
        }
        add_resource(&mut entry, e);
        let name = groups[j].0.clone();
        groups.set(j, (name, entry));
        proof {
            let g = groups@;
            assert forall|m: int| 0 <= m < g.len() implies ent_usage((#[trigger] g[m]).1) == usage_where(post, agent_pred(g[m].0@, today_only)) by {
                if m != j {
                    assert(g[m] == old_groups[m]);
                }
            }
            assert forall|m: int| 0 <= m < g.len() implies usage_where(post, agent_pred((#[trigger] g[m]).0@, today_only)).calls > 0 by {
                if m != j {
                    assert(g[m] == old_groups[m]);
                }
            }
            assert forall|a: int, b: int| 0 <= a < b < g.len() implies (#[trigger] g[a]).0@ != (#[trigger] g[b]).0@ by {
                assert(g[a].0@ == old_groups[a].0@);
                assert(g[b].0@ == old_groups[b].0@);
            }
            assert forall|kk: Seq<char>| #[trigger] usage_where(post, agent_pred(kk, today_only)).calls > 0 implies
                exists|m: int| 0 <= m < g.len() && (#[trigger] g[m]).0@ == kk by {
                if kk == k {
                    assert(g[j as int].0@ == kk);
                } else {
                    let m = choose|m: int| 0 <= m < old_groups.len() && (#[trigger] old_groups[m]).0@ == kk;
                    assert(g[m].0@ == kk);
                }
            }
        }
    } else {
        proof {
            if usage_where(pre, agent_pred(k, today_only)).calls > 0 {
                let m = choose|m: int| 0 <= m < old_groups.len() && (#[trigger] old_groups[m]).0@ == k;
                assert(old_groups[m].0@ != k);
            }
            lemma_zero_calls(pre, agent_pred(k, today_only));
        }
        let mut entry = EntityResource::default();
        add_resource(&mut entry, e);
        groups.push((key, entry));
        proof {
            let g = groups@;
            assert forall|m: int| 0 <= m < g.len() implies ent_usage((#[trigger] g[m]).1) == usage_where(post, agent_pred(g[m].0@, today_only)) by {
                if m < old_groups.len() {
                    assert(g[m] == old_groups[m]);
                }
            }
            assert forall|m: int| 0 <= m < g.len() implies usage_where(post, agent_pred((#[trigger] g[m]).0@, today_only)).calls > 0 by {
                if m < old_groups.len() {
                    assert(g[m] == old_groups[m]);
                }
            }
            assert forall|a: int, b: int| 0 <= a < b < g.len() implies (#[trigger] g[a]).0@ != (#[trigger] g[b]).0@ by {
                assert(g[a] == old_groups[a]);
                if b < old_groups.len() {
                    assert(g[b] == old_groups[b]);
                }
            }
            assert forall|kk: Seq<char>| #[trigger] usage_where(post, agent_pred(kk, today_only)).calls > 0 implies
                exists|m: int| 0 <= m < g.len() && (#[trigger] g[m]).0@ == kk by {
                if kk == k {
                    assert(g[old_groups.len() as int].0@ == kk);
                } else {
                    let m = choose|m: int| 0 <= m < old_groups.len() && (#[trigger] old_groups[m]).0@ == kk;
                    assert(g[m] == old_groups[m]);
                }
            }
        }
    }
}


/// `a` is ranked strictly ahead of `b`: larger first component, or equal
/// first and larger second.
pub open spec fn ahead(a: (u64, u64), b: (u64, u64)) -> bool {
    a.0 > b.0 || (a.0 == b.0 && a.1 > b.1)
}

/// Inserting index `x` into an ordered list of indices: it goes after every
/// index whose key is not ranked behind its own (so ties keep their input order).
pub open spec fn insert_sorted(r: Seq<int>, keys: Seq<(u64, u64)>, x: int) -> Seq<int>
    decreases r.len(),
{
    if r.len() == 0 {
        seq![x]
    } else if ahead(keys[x], keys[r[0]]) {
        seq![x] + r
    } else {
        seq![r[0]] + insert_sorted(r.drop_first(), keys, x)
    }
}

/// The stable descending order of the first `n` keys, as a list of indices
/// (what a stable `sort_by` gives).
pub open spec fn sorted_order(keys: Seq<(u64, u64)>, n: nat) -> Seq<int>
    decreases n,
{
    if n == 0 {
        Seq::empty()
    } else {
        insert_sorted(sorted_order(keys, (n - 1) as nat), keys, n - 1)
    }
}

pub open spec fn as_ints(v: Seq<usize>) -> Seq<int> {
    v.map_values(|u: usize| u as int)
}

proof fn lemma_insert_at(r: Seq<int>, keys: Seq<(u64, u64)>, x: int, j: int)
    requires
        0 <= j <= r.len(),
        forall|m: int| 0 <= m < j ==> !ahead(keys[x], keys[#[trigger] r[m]]),
        j == r.len() || ahead(keys[x], keys[r[j]]),
    ensures
        insert_sorted(r, keys, x) == r.insert(j, x),
    decreases j,
{
    if r.len() == 0 {
        assert(r.insert(j, x) =~= seq![x]);
    } else if j == 0 {
        assert(r.insert(0, x) =~= seq![x] + r);
    } else {
        let t = r.drop_first();
        assert forall|m: int| 0 <= m < j - 1 implies !ahead(keys[x], keys[#[trigger] t[m]]) by {
            assert(t[m] == r[m + 1]);
        }
        if j - 1 < t.len() {
            assert(t[j - 1] == r[j]);
        }
        lemma_insert_at(t, keys, x, j - 1);
        assert(seq![r[0]] + t.insert(j - 1, x) =~= r.insert(j, x));
    }
}

/// A key as one number, so that `ahead` is `>` on these numbers.
pub open spec fn key_value(a: (u64, u64)) -> int {
    a.0 * 0x1_0000_0000_0000_0000 + a.1
}

proof fn lemma_ahead_is_greater(a: (u64, u64), b: (u64, u64))
    ensures
        ahead(a, b) <==> key_value(a) > key_value(b),
{
}

/// Where `insert_sorted` places `x`: before the first index whose key `x` is ahead of.
pub open spec fn insert_pos(r: Seq<int>, keys: Seq<(u64, u64)>, x: int) -> int
    decreases r.len(),
{
    if r.len() == 0 {
        0
    } else if ahead(keys[x], keys[r[0]]) {
        0
    } else {
        1 + insert_pos(r.drop_first(), keys, x)
    }
}

proof fn lemma_insert_pos(r: Seq<int>, keys: Seq<(u64, u64)>, x: int)
    ensures
        0 <= insert_pos(r, keys, x) <= r.len(),
        forall|m: int| 0 <= m < insert_pos(r, keys, x) ==> !ahead(keys[x], keys[#[trigger] r[m]]),
        insert_pos(r, keys, x) == r.len() || ahead(keys[x], keys[r[insert_pos(r, keys, x)]]),
    decreases r.len(),
{
    if r.len() > 0 && !ahead(keys[x], keys[r[0]]) {
        let t = r.drop_first();
        lemma_insert_pos(t, keys, x);
        assert forall|m: int| 0 <= m < insert_pos(r, keys, x) implies !ahead(keys[x], keys[#[trigger] r[m]]) by {
            if m > 0 {
                assert(r[m] == t[m - 1]);
            }
        }
        if insert_pos(r, keys, x) < r.len() {
            assert(r[insert_pos(r, keys, x)] == t[insert_pos(t, keys, x)]);
        }
    }
}

/// The stable order is a stable sort: it lists each index below `n` once,
/// no index is ranked ahead of one listed before it, and indices with
/// equal keys keep their input order.
pub proof fn law_sorted_order_is_stable_sort(keys: Seq<(u64, u64)>, n: nat)
    requires
        n <= keys.len(),
    ensures
        sorted_order(keys, n).len() == n,
        forall|i: int| 0 <= i < n ==> 0 <= #[trigger] sorted_order(keys, n)[i] < n,
        forall|i: int, j: int| 0 <= i < j < n ==> #[trigger] sorted_order(keys, n)[i] != #[trigger] sorted_order(keys, n)[j],
        forall|i: int, j: int| 0 <= i < j < n ==> !ahead(keys[#[trigger] sorted_order(keys, n)[j]], keys[#[trigger] sorted_order(keys, n)[i]]),
        forall|i: int, j: int| 0 <= i < j < n && keys[#[trigger] sorted_order(keys, n)[i]] == keys[#[trigger] sorted_order(keys, n)[j]]
            ==> sorted_order(keys, n)[i] < sorted_order(keys, n)[j],
    decreases n,
{
    if n > 0 {
        let r = sorted_order(keys, (n - 1) as nat);
        law_sorted_order_is_stable_sort(keys, (n - 1) as nat);
        let x = n - 1;
        lemma_insert_pos(r, keys, x);
        let p = insert_pos(r, keys, x);
        lemma_insert_at(r, keys, x, p);
        let o = r.insert(p, x);
        assert(sorted_order(keys, n) == o);
        assert forall|i: int| 0 <= i < o.len() implies 0 <= #[trigger] o[i] < n by {
            if i < p {
                assert(o[i] == r[i]);
            } else if i > p {
                assert(o[i] == r[i - 1]);
            }
        }
        assert forall|i: int, j: int| 0 <= i < j < o.len() implies
            #[trigger] o[i] != #[trigger] o[j]
            && !ahead(keys[o[j]], keys[o[i]])
            && (keys[o[i]] == keys[o[j]] ==> o[i] < o[j]) by {
            lemma_ahead_is_greater(keys[o[j]], keys[o[i]]);
            if j < p {
                assert(o[i] == r[i] && o[j] == r[j]);
            } else if j == p {
                assert(o[i] == r[i]);
                assert(!ahead(keys[x], keys[r[i]]));
            } else if i == p {
                assert(o[j] == r[j - 1]);
                lemma_ahead_is_greater(keys[x], keys[r[p]]);
                if j - 1 > p {
                    lemma_ahead_is_greater(keys[r[j - 1]], keys[r[p]]);
                }
                assert(ahead(keys[x], keys[r[p]]));
            } else if i < p {
                assert(o[i] == r[i] && o[j] == r[j - 1]);
            } else {
                assert(o[i] == r[i - 1] && o[j] == r[j - 1]);
            }
        }
    }
}

/// Stable descending order of `keys` as indices.
pub fn stable_order(keys: &Vec<(u64, u64)>) -> (r: Vec<usize>)
    ensures
        as_ints(r@) == sorted_order(keys@, keys@.len()),
        r@.len() == keys@.len(),
        forall|m: int| 0 <= m < r@.len() ==> (#[trigger] r@[m]) < keys@.len(),
{
    let n = keys.len();
    let mut r: Vec<usize> = Vec::new();
    let mut i: usize = 0;
    while i < n
        invariant
            n == keys@.len(),
            i <= n,
            as_ints(r@) == sorted_order(keys@, i as nat),
            r@.len() == i,
            forall|m: int| 0 <= m < r@.len() ==> (#[trigger] r@[m]) < i,
        decreases n - i,
    {
        let key = keys[i];
        let mut j: usize = 0;
        while j < r.len() && !(key.0 > keys[r[j]].0 || (key.0 == keys[r[j]].0 && key.1 > keys[r[j]].1))
            invariant
                n == keys@.len(),
                i < n,
                key == keys@[i as int],
                j <= r@.len(),
                forall|m: int| 0 <= m < r@.len() ==> (#[trigger] r@[m]) < i,
                forall|m: int| 0 <= m < j ==> !ahead(key, keys@[#[trigger] r@[m] as int]),
            decreases r@.len() - j,
        {
            j = j + 1;
        }
        let ghost before = as_ints(r@);
        proof {
            assert forall|m: int| 0 <= m < j implies !ahead(keys@[i as int], keys@[#[trigger] before[m]]) by {
                assert(before[m] == r@[m] as int);
            }
            if j < r@.len() {
                assert(before[j as int] == r@[j as int] as int);
            }
            lemma_insert_at(before, keys@, i as int, j as int);
        }
        r.insert(j, i);
        proof {
            assert(as_ints(r@) =~= before.insert(j as int, i as int));
        }
        i = i + 1;
    }
    r
}

/// An agent aggregate with its id, as listed in a ranking.
#[derive(Debug, Clone)]
pub struct RankedEntityResource {
    pub id: String,
    pub mcp_calls: u64,
    pub peak_rss_kb_max: u64,
    pub cpu_time_ms_total: u64,
    pub runtime_ms_total: u64,
}

pub open spec fn ranked_is(r: RankedEntityResource, g: (String, EntityResource)) -> bool {
    &&& r.id@ == g.0@
    &&& r.mcp_calls == g.1.mcp_calls
    &&& r.peak_rss_kb_max == g.1.peak_rss_kb_max
    &&& r.cpu_time_ms_total == g.1.cpu_time_ms_total
    &&& r.runtime_ms_total == g.1.runtime_ms_total
}

/// Ranking key of a group: peak RSS, then CPU time.
pub open spec fn rank_keys(groups: Seq<(String, EntityResource)>) -> Seq<(u64, u64)> {
    groups.map_values(|g: (String, EntityResource)| (g.1.peak_rss_kb_max, g.1.cpu_time_ms_total))
}

/// `ranked` lists `groups` heaviest first: by peak RSS, then by CPU time,
/// ties in the groups' order.
pub open spec fn ranking_of(ranked: Seq<RankedEntityResource>, groups: Seq<(String, EntityResource)>) -> bool {
    let order = sorted_order(rank_keys(groups), groups.len());
    &&& ranked.len() == groups.len()
    &&& order.len() == groups.len()
    &&& forall|i: int| 0 <= i < ranked.len() ==> 0 <= #[trigger] order[i] < groups.len() && ranked_is(ranked[i], groups[order[i]])
}

pub fn rank_entities(groups: &Vec<(String, EntityResource)>) -> (r: Vec<RankedEntityResource>)
    ensures
        ranking_of(r@, groups@),
{
    let mut keys: Vec<(u64, u64)> = Vec::new();
    let mut i: usize = 0;
    while i < groups.len()
        invariant
            i <= groups@.len(),
            keys@ == rank_keys(groups@).take(i as int),
        decreases groups@.len() - i,
    {
        keys.push((groups[i].1.peak_rss_kb_max, groups[i].1.cpu_time_ms_total));
        i = i + 1;
        proof {
            assert(keys@ =~= rank_keys(groups@).take(i as int));
        }
    }
    proof {
        assert(keys@ =~= rank_keys(groups@));
    }
    let order = stable_order(&keys);
    let mut r: Vec<RankedEntityResource> = Vec::new();
    let mut m: usize = 0;
    while m < order.len()
        invariant
            m <= order@.len(),
            keys@ == rank_keys(groups@),
            keys@.len() == groups@.len(),
            as_ints(order@) == sorted_order(keys@, keys@.len()),
            order@.len() == keys@.len(),
            forall|q: int| 0 <= q < order@.len() ==> (#[trigger] order@[q]) < keys@.len(),
            r@.len() == m,
            forall|q: int| 0 <= q < m ==> ranked_is(#[trigger] r@[q], groups@[order@[q] as int]),
        decreases order@.len() - m,
    {
        let g = &groups[order[m]];
        r.push(RankedEntityResource {
            id: g.0.clone(),
            mcp_calls: g.1.mcp_calls,
            peak_rss_kb_max: g.1.peak_rss_kb_max,
            cpu_time_ms_total: g.1.cpu_time_ms_total,
            runtime_ms_total: g.1.runtime_ms_total,
        });
        m = m + 1;
    }
    proof {
        let order_s = sorted_order(rank_keys(groups@), groups@.len());
        assert(order_s.len() == order@.len());
        assert forall|q: int| 0 <= q < r@.len() implies 0 <= #[trigger] order_s[q] < groups@.len() && ranked_is(r@[q], groups@[order_s[q]]) by {
            assert(order_s[q] == order@[q] as int);
        }
    }
    r
}


/// One MCP call with measured resources, as listed among the heaviest calls.
#[derive(Debug, Clone)]
pub struct HighResourceCall {
    pub timestamp: String,
    pub agent_id: Option<String>,
    pub mcp_server: Option<String>,
    pub action: String,
    pub peak_rss_kb: Option<u64>,
    pub cpu_time_ms: Option<u64>,
    pub runtime_ms: Option<u64>,
}

/// The roll-up of MCP resource usage.
#[derive(Debug, Clone)]
pub struct ResourceRollupReport {
    pub generated_at: String,
    pub total_mcp_calls: u64,
    pub mcp_calls_today: u64,
    pub peak_rss_kb_max: u64,
    pub cpu_time_ms_total: u64,
    pub runtime_ms_total: u64,
    pub by_agent: Vec<(String, EntityResource)>,
    pub by_agent_ranked: Vec<RankedEntityResource>,
    pub by_agent_today_ranked: Vec<RankedEntityResource>,
    pub top_consumers: Vec<RankedEntityResource>,
    pub recent_high_resource: Vec<HighResourceCall>,
}

/// An MCP call that reported peak memory or CPU time.
pub open spec fn is_measured(e: ResourceSample) -> bool {
    e.is_mcp && (e.peak_rss_kb is Some || e.cpu_time_ms is Some)
}

/// How heavy a measured call is: peak RSS weighs a thousand times CPU time.
pub open spec fn call_score(e: ResourceSample) -> nat {
    opt_or_zero(e.peak_rss_kb) * 1000 + opt_or_zero(e.cpu_time_ms)
}

/// The measured calls in input order.
pub open spec fn measured(s: Seq<ResourceSample>) -> Seq<ResourceSample>
    decreases s.len(),
{
    if s.len() == 0 {
        Seq::empty()
    } else {
        let c = measured(s.drop_last());
        if is_measured(s.last()) {
            c.push(s.last())
        } else {
            c
        }
    }
}

pub open spec fn score_keys(c: Seq<ResourceSample>) -> Seq<(u64, u64)> {
    c.map_values(|e: ResourceSample| (call_score(e) as u64, 0u64))
}

pub open spec fn high_is(h: HighResourceCall, e: ResourceSample) -> bool {
    &&& h.timestamp@ == e.timestamp@
    &&& h.agent_id == e.agent_id
    &&& h.mcp_server == e.mcp_server
    &&& h.action@ == e.action@
    &&& h.peak_rss_kb == e.peak_rss_kb
    &&& h.cpu_time_ms == e.cpu_time_ms
    &&& h.runtime_ms == e.duration_ms
}

/// The heaviest measured calls: the measured calls by score, heaviest first
/// (ties in input order), at most ten.
pub open spec fn heaviest_calls(high: Seq<HighResourceCall>, s: Seq<ResourceSample>) -> bool {
    let c = measured(s);
    let order = sorted_order(score_keys(c), c.len());
    &&& high.len() == if c.len() < 10 { c.len() } else { 10 }
    &&& forall|i: int| 0 <= i < high.len() ==> 0 <= #[trigger] order[i] < c.len() && high_is(high[i], c[order[i]])
}

/// The inputs fit the counters: MCP CPU and runtime totals fit in `u64`,
/// and so does the score of every measured call.
pub open spec fn rollup_fits(s: Seq<ResourceSample>) -> bool {
    &&& fits(s)
    &&& forall|i: int| 0 <= i < s.len() && is_measured(#[trigger] s[i]) ==> call_score(s[i]) <= u64::MAX
}

proof fn lemma_measured_step(s: Seq<ResourceSample>, i: int)
    requires
        0 <= i < s.len(),
    ensures
        measured(s.take(i + 1)) == if is_measured(s[i]) { measured(s.take(i)).push(s[i]) } else { measured(s.take(i)) },
{
    assert(s.take(i + 1).drop_last() =~= s.take(i));
}

fn high_call_of(e: &ResourceSample) -> (h: HighResourceCall)
    ensures
        high_is(h, *e),
{
    HighResourceCall {
        timestamp: e.timestamp.clone(),
        agent_id: clone_opt_string(&e.agent_id),
        mcp_server: clone_opt_string(&e.mcp_server),
        action: e.action.clone(),
        peak_rss_kb: e.peak_rss_kb,
        cpu_time_ms: e.cpu_time_ms,
        runtime_ms: e.duration_ms,
    }
}

/// Rolls up the resource usage of the MCP calls among `entries`.
pub fn rollup_mcp_resources(entries: &Vec<ResourceSample>, generated_at: String) -> (r: ResourceRollupReport)
    requires
        rollup_fits(entries@),
    ensures
        r.generated_at == generated_at,
        r.total_mcp_calls == usage_where(entries@, scope_pred(false)).calls,
        r.mcp_calls_today == usage_where(entries@, scope_pred(true)).calls,
        r.peak_rss_kb_max == usage_where(entries@, scope_pred(false)).peak,
        r.cpu_time_ms_total == usage_where(entries@, scope_pred(false)).cpu,
        r.runtime_ms_total == usage_where(entries@, scope_pred(false)).runtime,
        groups_ok(r.by_agent@, entries@, false),
        ranking_of(r.by_agent_ranked@, r.by_agent@),
        exists|today: Seq<(String, EntityResource)>| groups_ok(today, entries@, true) && ranking_of(r.by_agent_today_ranked@, today),
        r.top_consumers@.len() == if r.by_agent_ranked@.len() < 5 { r.by_agent_ranked@.len() } else { 5 },
        forall|i: int| 0 <= i < r.top_consumers@.len() ==> ranked_is(#[trigger] r.top_consumers@[i], r.by_agent@[sorted_order(rank_keys(r.by_agent@), r.by_agent@.len())[i]]),
        heaviest_calls(r.recent_high_resource@, entries@),
{
    let ghost s = entries@;
    let n = entries.len();
    let mut total = EntityResource::default();
    let mut calls_today: u64 = 0;
    let mut by_agent: Vec<(String, EntityResource)> = Vec::new();
    let mut by_agent_today: Vec<(String, EntityResource)> = Vec::new();
    let mut high: Vec<HighResourceCall> = Vec::new();
    let mut high_keys: Vec<(u64, u64)> = Vec::new();
    let mut i: usize = 0;
    proof {
        assert(s.take(0) =~= Seq::<ResourceSample>::empty());
    }
    while i < n
        invariant
            n == s.len(),
            s == entries@,
            rollup_fits(s),
            i <= n,
            ent_usage(total) == usage_where(s.take(i as int), scope_pred(false)),
            calls_today as nat == usage_where(s.take(i as int), scope_pred(true)).calls,
            groups_ok(by_agent@, s.take(i as int), false),
            groups_ok(by_agent_today@, s.take(i as int), true),
            high@.len() == measured(s.take(i as int)).len(),
            high_keys@ == score_keys(measured(s.take(i as int))),
            forall|q: int| 0 <= q < high@.len() ==> high_is(#[trigger] high@[q], measured(s.take(i as int))[q]),
        decreases n - i,
    {
        let e = &entries[i];
        proof {
            lemma_usage_step(s, i as int, scope_pred(false));
            lemma_usage_step(s, i as int, scope_pred(true));
            lemma_usage_prefix(s, i + 1, scope_pred(false));
            lemma_usage_bounded(s.take(i + 1), scope_pred(true), scope_pred(false));
            lemma_usage_bounded(s.take(i as int), scope_pred(false), scope_pred(false));
            lemma_measured_step(s, i as int);
        }
        group_add(&mut by_agent, entries, i, false);
        group_add(&mut by_agent_today, entries, i, true);
        if e.is_mcp {
            add_resource(&mut total, e);
            if e.is_today {
                calls_today = calls_today + 1;
            }
            if e.peak_rss_kb.is_some() || e.cpu_time_ms.is_some() {
                let rss: u64 = match e.peak_rss_kb { Some(v) => v, None => 0 };
                let cpu: u64 = match e.cpu_time_ms { Some(v) => v, None => 0 };
                assert(call_score(s[i as int]) <= u64::MAX);
                let score: u64 = rss * 1000 + cpu;
                let ghost before_keys = high_keys@;
                high.push(high_call_of(e));
                high_keys.push((score, 0));
                proof {
                    assert(high_keys@ =~= score_keys(measured(s.take(i + 1))));
                }
            }
        }
        i = i + 1;
    }
    proof {
        assert(s.take(n as int) =~= s);
    }
    let by_agent_ranked = rank_entities(&by_agent);
    let by_agent_today_ranked = rank_entities(&by_agent_today);
    let mut top_consumers: Vec<RankedEntityResource> = Vec::new();
    let mut t: usize = 0;
    while t < by_agent_ranked.len() && t < 5
        invariant
            t <= by_agent_ranked@.len(),
            t <= 5,
            top_consumers@.len() == t,
            forall|q: int| 0 <= q < t ==> #[trigger] top_consumers@[q] == by_agent_ranked@[q],
        decreases 5 - t,
    {
        top_consumers.push(by_agent_ranked[t].clone_ranked());
        t = t + 1;
    }
    let order = stable_order(&high_keys);
    let mut recent: Vec<HighResourceCall> = Vec::new();
    let mut m: usize = 0;
    while m < order.len() && m < 10
        invariant
            m <= order@.len(),
            m <= 10,
            order@.len() == high_keys@.len(),
            high@.len() == high_keys@.len(),
            forall|q: int| 0 <= q < order@.len() ==> (#[trigger] order@[q]) < high_keys@.len(),
            recent@.len() == m,
            forall|q: int| 0 <= q < m ==> #[trigger] recent@[q] == high@[order@[q] as int],
        decreases 10 - m,
    {
        recent.push(high[order[m]].clone_call());
        m = m + 1;
    }
    proof {
        let c = measured(s);
        let ord = sorted_order(score_keys(c), c.len());
        assert(high_keys@.len() == c.len());
        assert forall|q: int| 0 <= q < recent@.len() implies 0 <= #[trigger] ord[q] < c.len() && high_is(recent@[q], c[ord[q]]) by {
            assert(ord[q] == order@[q] as int);
        }
        assert forall|q: int| 0 <= q < top_consumers@.len() implies ranked_is(#[trigger] top_consumers@[q], by_agent@[sorted_order(rank_keys(by_agent@), by_agent@.len())[q]]) by {
            assert(top_consumers@[q] == by_agent_ranked@[q]);
        }
    }
    ResourceRollupReport {
        generated_at,
        total_mcp_calls: total.mcp_calls,
        mcp_calls_today: calls_today,
        peak_rss_kb_max: total.peak_rss_kb_max,
        cpu_time_ms_total: total.cpu_time_ms_total,
        runtime_ms_total: total.runtime_ms_total,
        by_agent,
        by_agent_ranked,
        by_agent_today_ranked,
        top_consumers,
        recent_high_resource: recent,
    }
}

impl RankedEntityResource {
    /// A field-by-field copy.
    pub fn clone_ranked(&self) -> (r: Self)
        ensures
            r == *self,
    {
        RankedEntityResource {
            id: self.id.clone(),
            mcp_calls: self.mcp_calls,
            peak_rss_kb_max: self.peak_rss_kb_max,
            cpu_time_ms_total: self.cpu_time_ms_total,
            runtime_ms_total: self.runtime_ms_total,
        }
    }
}

impl HighResourceCall {
    /// A field-by-field copy.
    pub fn clone_call(&self) -> (r: Self)
        ensures
            r == *self,
    {
        HighResourceCall {
            timestamp: self.timestamp.clone(),
            agent_id: clone_opt_string(&self.agent_id),
            mcp_server: clone_opt_string(&self.mcp_server),
            action: self.action.clone(),
            peak_rss_kb: self.peak_rss_kb,
            cpu_time_ms: self.cpu_time_ms,
            runtime_ms: self.runtime_ms,
        }
    }
}

/// Two aggregates taken together: calls, CPU time and runtime add up, the
/// peak is the larger one.
pub open spec fn combine(a: Usage, b: Usage) -> Usage {
    Usage {
        calls: a.calls + b.calls,
        peak: if a.peak >= b.peak { a.peak } else { b.peak },
        cpu: a.cpu + b.cpu,
        runtime: a.runtime + b.runtime,
    }
}

/// The aggregates of the agents `keys`, taken together.
pub open spec fn usage_over_keys(s: Seq<ResourceSample>, keys: Seq<Seq<char>>, today_only: bool) -> Usage
    decreases keys.len(),
{
    if keys.len() == 0 {
        zero_usage()
    } else {
        combine(usage_over_keys(s, keys.drop_last(), today_only), usage_where(s, agent_pred(keys.last(), today_only)))
    }
}

/// The agents of the groups.
pub open spec fn group_keys(groups: Seq<(String, EntityResource)>) -> Seq<Seq<char>> {
    groups.map_values(|g: (String, EntityResource)| g.0@)
}

proof fn lemma_keys_zero(keys: Seq<Seq<char>>, today_only: bool)
    ensures
        usage_over_keys(Seq::<ResourceSample>::empty(), keys, today_only) == zero_usage(),
    decreases keys.len(),
{
    if keys.len() > 0 {
        lemma_keys_zero(keys.drop_last(), today_only);
    }
}

proof fn lemma_keys_step(s: Seq<ResourceSample>, keys: Seq<Seq<char>>, today_only: bool)
    requires
        s.len() > 0,
        forall|a: int, b: int| 0 <= a < b < keys.len() ==> keys[a] != keys[b],
    ensures
        ({
            let e = s.last();
            let before = usage_over_keys(s.drop_last(), keys, today_only);
            let after = usage_over_keys(s, keys, today_only);
            if in_scope(e, today_only) && keys.contains(sample_key(e)) {
                after == add_usage(before, e)
            } else {
                after == before
            }
        }),
    decreases keys.len(),
{
    let e = s.last();
    if keys.len() > 0 {
        let rest = keys.drop_last();
        assert forall|a: int, b: int| 0 <= a < b < rest.len() implies rest[a] != rest[b] by {
            assert(rest[a] == keys[a]);
            assert(rest[b] == keys[b]);
        }
        lemma_keys_step(s, rest, today_only);
        let k = keys.last();
        if in_scope(e, today_only) && sample_key(e) == k {
            assert(!rest.contains(k)) by {
                if rest.contains(k) {
                    let j = choose|j: int| 0 <= j < rest.len() && rest[j] == k;
                    assert(keys[j] == keys[keys.len() - 1]);
                }
            }
        } else if in_scope(e, today_only) && keys.contains(sample_key(e)) {
            let j = choose|j: int| 0 <= j < keys.len() && keys[j] == sample_key(e);
            assert(j != keys.len() - 1);
            assert(rest[j] == sample_key(e));
        } else if in_scope(e, today_only) && rest.contains(sample_key(e)) {
            let j = choose|j: int| 0 <= j < rest.len() && rest[j] == sample_key(e);
            assert(keys[j] == sample_key(e));
        }
    }
}

/// Every agent with a call in scope is among `keys`.
pub open spec fn keys_cover(s: Seq<ResourceSample>, keys: Seq<Seq<char>>, today_only: bool) -> bool {
    forall|i: int| 0 <= i < s.len() && in_scope(#[trigger] s[i], today_only) ==> keys.contains(sample_key(s[i]))
}

proof fn lemma_keys_total(s: Seq<ResourceSample>, keys: Seq<Seq<char>>, today_only: bool)
    requires
        forall|a: int, b: int| 0 <= a < b < keys.len() ==> keys[a] != keys[b],
        keys_cover(s, keys, today_only),
    ensures
        usage_over_keys(s, keys, today_only) == usage_where(s, scope_pred(today_only)),
    decreases s.len(),
{
    if s.len() == 0 {
        lemma_keys_zero(keys, today_only);
        assert(s =~= Seq::<ResourceSample>::empty());
    } else {
        let prev = s.drop_last();
        assert forall|i: int| 0 <= i < prev.len() && in_scope(#[trigger] prev[i], today_only) implies keys.contains(sample_key(prev[i])) by {
            assert(prev[i] == s[i]);
        }
        lemma_keys_total(prev, keys, today_only);
        lemma_keys_step(s, keys, today_only);
        let e = s.last();
        if in_scope(e, today_only) {
            assert(s[s.len() - 1] == e);
            assert(keys.contains(sample_key(e)));
            assert(scope_pred(today_only)(e));
            assert(usage_where(s, scope_pred(today_only)) == add_usage(usage_where(prev, scope_pred(today_only)), e));
        } else {
            assert(!scope_pred(today_only)(e));
            assert(usage_where(s, scope_pred(today_only)) == usage_where(prev, scope_pred(today_only)));
        }
    }
}

/// The per-agent aggregates add up to the totals: taken together, the
/// groups of a roll-up have the calls, CPU time and runtime of all MCP
/// calls in scope, and their largest peak is the overall peak.
pub proof fn law_agents_add_up_to_totals(groups: Seq<(String, EntityResource)>, s: Seq<ResourceSample>, today_only: bool)
    requires
        groups_ok(groups, s, today_only),
    ensures
        usage_over_keys(s, group_keys(groups), today_only) == usage_where(s, scope_pred(today_only)),
{
    let keys = group_keys(groups);
    assert forall|a: int, b: int| 0 <= a < b < keys.len() implies keys[a] != keys[b] by {
        assert(keys[a] == groups[a].0@);
        assert(keys[b] == groups[b].0@);
    }
    assert forall|i: int| 0 <= i < s.len() && in_scope(#[trigger] s[i], today_only) implies keys.contains(sample_key(s[i])) by {
        let k = sample_key(s[i]);
        lemma_in_scope_counts(s, i, k, today_only);
        let j = choose|j: int| 0 <= j < groups.len() && (#[trigger] groups[j]).0@ == k;
        assert(keys[j] == k);
    }
    lemma_keys_total(s, keys, today_only);
}

proof fn lemma_in_scope_counts(s: Seq<ResourceSample>, i: int, k: Seq<char>, today_only: bool)
    requires
        0 <= i < s.len(),
        in_scope(s[i], today_only),
        sample_key(s[i]) == k,
    ensures
        usage_where(s, agent_pred(k, today_only)).calls > 0,
    decreases s.len(),
{
    if i == s.len() - 1 {
        assert(s.last() == s[i]);
    } else {
        lemma_in_scope_counts(s.drop_last(), i, k, today_only);
        assert(s.drop_last()[i] == s[i]);
    }
}

} // verus!
