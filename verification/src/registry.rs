//! The registry of native tools declared by the integration manifests
//! (`integrations/**/*.json`).

use vstd::prelude::*;
use crate::error::RmngError;
use crate::order::{lemma_lex_asymmetric, lemma_lex_total, lemma_lex_transitive, lex_lt, same_names, sort_distinct_names, str_lt, strictly_sorted};
use crate::text::{clone_opt_string, concat3, owned, str_equal, views};

verus! {

/// Native tool definition of a manifest.
#[derive(Debug, Clone)]
pub struct ToolManifest {
    pub name: String,
    pub description: Option<String>,
    /// JSON schema of the tool's parameters (`null` when there is none).
    pub parameters: serde_json::Value,
}

/// One integration domain manifest.
#[derive(Debug, Clone)]
pub struct IntegrationManifest {
    pub name: String,
    pub version: String,
    pub description: Option<String>,
    pub tools: Vec<ToolManifest>,
}

impl ToolManifest {
    /// A field-by-field copy.
    pub fn duplicate(&self) -> (r: Self)
        ensures
            r == *self,
    {
        ToolManifest {
            name: self.name.clone(),
            description: clone_opt_string(&self.description),
            parameters: self.parameters.clone(),
        }
    }
}

/// The tools of the manifests, manifest after manifest.
pub open spec fn flat_tools(ms: Seq<IntegrationManifest>) -> Seq<ToolManifest>
    decreases ms.len(),
{
    if ms.len() == 0 {
        Seq::empty()
    } else {
        flat_tools(ms.drop_last()) + ms.last().tools@
    }
}

/// The names of tools.
pub open spec fn tool_names(ts: Seq<ToolManifest>) -> Seq<Seq<char>> {
    ts.map_values(|t: ToolManifest| t.name@)
}

/// No name occurs twice among the first `k` names.
pub open spec fn distinct_upto(names: Seq<Seq<char>>, k: int) -> bool {
    forall|a: int, b: int| 0 <= a < b < k ==> names[a] != names[b]
}

/// Position `j` holds the first name that repeats an earlier one.
pub open spec fn first_repeat_at(names: Seq<Seq<char>>, j: int) -> bool {
    &&& 0 <= j < names.len()
    &&& distinct_upto(names, j)
    &&& exists|a: int| 0 <= a < j && names[a] == names[j]
}

/// The error text for a tool name declared twice.
pub open spec fn duplicate_message(name: Seq<char>) -> Seq<char> {
    "duplicate tool name '"@ + name + "' in integrations manifests"@
}

/// Manifests whose name is `n`.
pub open spec fn named(n: Seq<char>) -> spec_fn(IntegrationManifest) -> bool {
    |m: IntegrationManifest| m.name@ == n
}

/// Manifests ordered by name (equal names in any order).
pub open spec fn sorted_by_name(ms: Seq<IntegrationManifest>) -> bool {
    forall|a: int, b: int| 0 <= a < b < ms.len() ==> !lex_lt(#[trigger] ms[b].name@, #[trigger] ms[a].name@)
}

/// `r` is `ms` sorted by name, keeping manifests of one name in their order.
pub open spec fn stable_sorted_by_name(r: Seq<IntegrationManifest>, ms: Seq<IntegrationManifest>) -> bool {
    &&& sorted_by_name(r)
    &&& forall|n: Seq<char>| #[trigger] r.filter(named(n)) == ms.filter(named(n))
}

/// Registry of the native tools declared by the integration manifests.
#[derive(Debug)]
pub struct IntegrationRegistry {
    root: String,
    manifests: Vec<IntegrationManifest>,
    tools: Vec<ToolManifest>,
}

proof fn lemma_filter_none(s: Seq<IntegrationManifest>, p: spec_fn(IntegrationManifest) -> bool)
    requires
        forall|k: int| 0 <= k < s.len() ==> !p(#[trigger] s[k]),
    ensures
        s.filter(p) == Seq::<IntegrationManifest>::empty(),
    decreases s.len(),
{
    reveal(Seq::filter);
    if s.len() > 0 {
        lemma_filter_none(s.drop_last(), p);
    }
    assert(s.filter(p) =~= Seq::<IntegrationManifest>::empty());
}

proof fn lemma_filter_single(x: IntegrationManifest, p: spec_fn(IntegrationManifest) -> bool)
    ensures
        seq![x].filter(p) == (if p(x) { seq![x] } else { Seq::<IntegrationManifest>::empty() }),
{
    reveal_with_fuel(Seq::filter, 2);
    assert(seq![x].drop_last() =~= Seq::<IntegrationManifest>::empty());
}

impl IntegrationManifest {
    /// A field-by-field copy.
    pub fn duplicate(&self) -> (r: Self)
        ensures
            r.name == self.name,
            r.version == self.version,
            r.description == self.description,
            r.tools@ == self.tools@,
    {
        let mut tools: Vec<ToolManifest> = Vec::new();
        let mut i: usize = 0;
        while i < self.tools.len()
            invariant
                i <= self.tools.len(),
                tools@ == self.tools@.subrange(0, i as int),
            decreases self.tools.len() - i,
        {
            tools.push(self.tools[i].duplicate());
            i = i + 1;
            proof {
                assert(tools@ =~= self.tools@.subrange(0, i as int));
            }
        }
        proof {
            assert(tools@ =~= self.tools@);
        }
        IntegrationManifest {
            name: self.name.clone(),
            version: self.version.clone(),
            description: clone_opt_string(&self.description),
            tools,
        }
    }
}

/// Stable insertion sort of manifests by name.
fn sort_manifests(ms: Vec<IntegrationManifest>) -> (r: Vec<IntegrationManifest>)
    ensures
        stable_sorted_by_name(r@, ms@),
{
    let ghost orig = ms@;
    let mut ms = ms;
    let total = ms.len();
    assert(orig.len() == total);
    let mut out: Vec<IntegrationManifest> = Vec::new();
    let mut i: usize = 0;
    while ms.len() > 0
        invariant
            i + ms.len() == orig.len(),
            orig.len() <= usize::MAX,
            ms@ == orig.subrange(i as int, orig.len() as int),
            sorted_by_name(out@),
            forall|n: Seq<char>| #[trigger] out@.filter(named(n)) == orig.subrange(0, i as int).filter(named(n)),
        decreases ms.len(),
    {
        let m = ms.remove(0);
        assert(m == orig[i as int]);
        let ghost old_out = out@;
        let mut pos: usize = 0;
        while pos < out.len() && !str_lt(m.name.as_str(), out[pos].name.as_str())
            invariant
                pos <= out.len(),
                old_out == out@,
                forall|k: int| 0 <= k < pos ==> !lex_lt(m.name@, #[trigger] old_out[k].name@),
            decreases out.len() - pos,
        {
            pos = pos + 1;
        }
        proof {
            if pos < out.len() {
                assert(lex_lt(m.name@, old_out[pos as int].name@));
                assert forall|k: int| pos <= k < old_out.len() implies lex_lt(m.name@, #[trigger] old_out[k].name@) by {
                    if k > pos {
                        assert(!lex_lt(old_out[k].name@, old_out[pos as int].name@));
                        if old_out[k].name@ != old_out[pos as int].name@ {
                            lemma_lex_total(old_out[k].name@, old_out[pos as int].name@);
                            lemma_lex_transitive(m.name@, old_out[pos as int].name@, old_out[k].name@);
                        }
                    }
                }
            }
        }
        out.insert(pos, m);
        proof {
            let nv = out@;
            let x = orig[i as int];
            let pre = old_out.subrange(0, pos as int);
            let post = old_out.subrange(pos as int, old_out.len() as int);
            assert(nv =~= pre + seq![x] + post);
            assert(old_out =~= pre + post);
            assert forall|a: int, b: int| 0 <= a < b < nv.len() implies !lex_lt(#[trigger] nv[b].name@, #[trigger] nv[a].name@) by {
                if b < pos {
                    assert(nv[a] == old_out[a]);
                    assert(nv[b] == old_out[b]);
                } else if a < pos && b == pos {
                    assert(nv[a] == old_out[a]);
                    assert(nv[b] == x);
                    assert(!lex_lt(m.name@, old_out[a].name@));
                } else if a < pos {
                    assert(nv[a] == old_out[a]);
                    assert(nv[b] == old_out[b - 1]);
                } else if a == pos {
                    assert(nv[a] == x);
                    assert(nv[b] == old_out[b - 1]);
                    assert(lex_lt(m.name@, old_out[b - 1].name@));
                    lemma_lex_asymmetric(x.name@, old_out[b - 1].name@);
                } else {
                    assert(nv[a] == old_out[a - 1]);
                    assert(nv[b] == old_out[b - 1]);
                }
            }
            let seen = orig.subrange(0, i as int);
            let seen2 = orig.subrange(0, i + 1);
            assert(seen2 =~= seen + seq![x]);
            assert forall|nm: Seq<char>| #[trigger] nv.filter(named(nm)) == seen2.filter(named(nm)) by {
                let p = named(nm);
                Seq::filter_distributes_over_add(pre + seq![x], post, p);
                Seq::filter_distributes_over_add(pre, seq![x], p);
                Seq::filter_distributes_over_add(pre, post, p);
                Seq::filter_distributes_over_add(seen, seq![x], p);
                lemma_filter_single(x, p);
                if x.name@ == nm {
                    assert forall|k: int| 0 <= k < post.len() implies !p(#[trigger] post[k]) by {
                        assert(post[k] == old_out[pos + k]);
                        assert(lex_lt(x.name@, old_out[pos + k].name@));
                        crate::order::lemma_lex_irreflexive(x.name@);
                    }
                    lemma_filter_none(post, p);
                    assert(nv.filter(p) =~= pre.filter(p) + seq![x]);
                    assert(old_out.filter(p) =~= pre.filter(p));
                } else {
                    assert(nv.filter(p) =~= pre.filter(p) + post.filter(p));
                }
            }
        }
        i = i + 1;
        proof {
            assert(ms@ =~= orig.subrange(i as int, orig.len() as int));
        }
    }
    proof {
        assert(orig.subrange(0, i as int) =~= orig);
    }
    out
}

proof fn lemma_flat_step(ms: Seq<IntegrationManifest>, i: int)
    requires
        0 <= i < ms.len(),
    ensures
        flat_tools(ms.subrange(0, i + 1)) == flat_tools(ms.subrange(0, i)) + ms[i].tools@,
{
    assert(ms.subrange(0, i + 1).drop_last() =~= ms.subrange(0, i));
}

proof fn lemma_flat_prefix_of(ms: Seq<IntegrationManifest>, i: int)
    requires
        0 <= i <= ms.len(),
    ensures
        flat_tools(ms.subrange(0, i)).len() <= flat_tools(ms).len(),
        flat_tools(ms.subrange(0, i)) =~= flat_tools(ms).subrange(0, flat_tools(ms.subrange(0, i)).len() as int),
    decreases ms.len() - i,
{
    if i == ms.len() {
        assert(ms.subrange(0, i) =~= ms);
    } else {
        lemma_flat_step(ms, i);
        lemma_flat_prefix_of(ms, i + 1);
    }
}

proof fn lemma_flat_prefix(ms: Seq<IntegrationManifest>, i: int, j: int)
    requires
        0 <= i < ms.len(),
        0 <= j < ms[i].tools@.len(),
    ensures
        ({
            let pre = flat_tools(ms.subrange(0, i)) + ms[i].tools@.subrange(0, j + 1);
            pre.len() <= flat_tools(ms).len() && pre =~= flat_tools(ms).subrange(0, pre.len() as int)
        }),
{
    lemma_flat_step(ms, i);
    lemma_flat_prefix_of(ms, i + 1);
}

proof fn lemma_names_push(ts: Seq<ToolManifest>, t: ToolManifest)
    ensures
        tool_names(ts.push(t)) == tool_names(ts).push(t.name@),
{
    assert(tool_names(ts.push(t)) =~= tool_names(ts).push(t.name@));
}

proof fn lemma_prefix_names(all: Seq<ToolManifest>, pre: Seq<ToolManifest>)
    requires
        pre.len() <= all.len(),
        pre =~= all.subrange(0, pre.len() as int),
    ensures
        forall|k: int| 0 <= k < pre.len() ==> #[trigger] tool_names(pre)[k] == tool_names(all)[k],
{
}

impl IntegrationRegistry {
    #[verifier::type_invariant]
    spec fn distinct_tools(&self) -> bool {
        distinct_upto(tool_names(self.tools@), self.tools@.len() as int)
    }

    /// The directory the manifests were read from.
    pub closed spec fn spec_root(&self) -> Seq<char> {
        self.root@
    }

    /// The manifests, sorted by name.
    pub closed spec fn spec_manifests(&self) -> Seq<IntegrationManifest> {
        self.manifests@
    }

    /// Every declared tool, in declaration order; no name occurs twice.
    pub closed spec fn spec_tools(&self) -> Seq<ToolManifest> {
        self.tools@
    }

    /// The declared tool of a name.
    pub open spec fn spec_tool(&self, name: Seq<char>) -> Option<ToolManifest> {
        if exists|k: int| 0 <= k < self.spec_tools().len() && (#[trigger] self.spec_tools()[k]).name@ == name {
            Some(self.spec_tools()[choose|k: int| 0 <= k < self.spec_tools().len() && (#[trigger] self.spec_tools()[k]).name@ == name])
        } else {
            None
        }
    }

    /// Builds the registry from the manifests read under `root`: every tool
    /// of every manifest, refusing a tool name declared twice; the manifests
    /// are kept sorted by name.
    pub fn from_manifests(root: &str, manifests: Vec<IntegrationManifest>) -> (r: Result<Self, RmngError>)
        ensures
            distinct_upto(tool_names(flat_tools(manifests@)), flat_tools(manifests@).len() as int) <==> r is Ok,
            r matches Ok(reg) ==> {
                &&& reg.spec_root() == root@
                &&& reg.spec_tools() == flat_tools(manifests@)
                &&& stable_sorted_by_name(reg.spec_manifests(), manifests@)
            },
            r matches Err(e) ==> exists|j: int| {
                &&& first_repeat_at(tool_names(flat_tools(manifests@)), j)
                &&& e matches RmngError::InvalidIntent(m)
                &&& m@ == duplicate_message(tool_names(flat_tools(manifests@))[j])
            },
    {
        let ghost all = flat_tools(manifests@);
        let mut tools: Vec<ToolManifest> = Vec::new();
        let mut i: usize = 0;
        while i < manifests.len()
            invariant
                i <= manifests.len(),
                all == flat_tools(manifests@),
                tools@ == flat_tools(manifests@.subrange(0, i as int)),
                distinct_upto(tool_names(tools@), tools@.len() as int),
            decreases manifests.len() - i,
        {
            let ghost base = tools@;
            proof {
                lemma_flat_step(manifests@, i as int);
            }
            let mtools = &manifests[i].tools;
            let mut j: usize = 0;
            while j < mtools.len()
                invariant
                    j <= mtools.len(),
                    i < manifests.len(),
                    mtools@ == manifests@[i as int].tools@,
                    tools@ == base + mtools@.subrange(0, j as int),
                    base == flat_tools(manifests@.subrange(0, i as int)),
                    all == flat_tools(manifests@),
                    flat_tools(manifests@.subrange(0, i + 1)) == base + mtools@,
                    distinct_upto(tool_names(tools@), tools@.len() as int),
                decreases mtools.len() - j,
            {
                let t = &mtools[j];
                let mut k: usize = 0;
                while k < tools.len()
                    invariant
                        k <= tools.len(),
                        forall|q: int| 0 <= q < k ==> (#[trigger] tools@[q]).name@ != t.name@,
                        i < manifests.len(),
                        j < mtools.len(),
                        *t == mtools@[j as int],
                        mtools@ == manifests@[i as int].tools@,
                        tools@ == base + mtools@.subrange(0, j as int),
                        base == flat_tools(manifests@.subrange(0, i as int)),
                        all == flat_tools(manifests@),
                        distinct_upto(tool_names(tools@), tools@.len() as int),
                    decreases tools.len() - k,
                {
                    if str_equal(tools[k].name.as_str(), t.name.as_str()) {
                        let msg = concat3("duplicate tool name '", t.name.as_str(), "' in integrations manifests");
                        proof {
                            reveal_strlit("duplicate tool name '");
                            reveal_strlit("' in integrations manifests");
                            let pre = tools@.push(*t);
                            let p = pre.len() as int - 1;
                            // `pre` is a prefix of every tool, and its last name repeats position k.
                            lemma_flat_prefix(manifests@, i as int, j as int);
                            assert(pre =~= base + mtools@.subrange(0, j + 1));
                            assert(pre =~= all.subrange(0, pre.len() as int));
                            lemma_prefix_names(all, pre);
                            lemma_names_push(tools@, *t);
                            assert(tool_names(pre)[k as int] == tool_names(pre)[p]);
                            let na = tool_names(all);
                            let nt = tool_names(tools@);
                            assert forall|a: int, b: int| 0 <= a < b < p implies na[a] != na[b] by {
                                assert(na[a] == tool_names(pre)[a]);
                                assert(na[b] == tool_names(pre)[b]);
                                assert(tool_names(pre)[a] == nt[a]);
                                assert(tool_names(pre)[b] == nt[b]);
                            }
                            assert(na[k as int] == na[p]);
                            assert(first_repeat_at(tool_names(all), p));
                            assert(!distinct_upto(tool_names(all), all.len() as int));
                        }
                        return Err(RmngError::InvalidIntent(msg));
                    }
                    k = k + 1;
                }
                let ghost before = tools@;
                tools.push(t.duplicate());
                proof {
                    lemma_names_push(before, *t);
                    assert(tools@ =~= base + mtools@.subrange(0, j + 1));
                }
                j = j + 1;
            }
            proof {
                assert(mtools@.subrange(0, mtools.len() as int) =~= mtools@);
            }
            i = i + 1;
        }
        proof {
            assert(manifests@.subrange(0, manifests.len() as int) =~= manifests@);
        }
        let sorted = sort_manifests(manifests);
        Ok(IntegrationRegistry { root: owned(root), manifests: sorted, tools })
    }

    /// The directory the manifests were read from.
    pub fn integrations_root(&self) -> (r: &str)
        ensures
            r@ == self.spec_root(),
    {
        self.root.as_str()
    }

    /// The manifests, sorted by name.
    pub fn manifests(&self) -> (r: &[IntegrationManifest])
        ensures
            r@ == self.spec_manifests(),
    {
        self.manifests.as_slice()
    }

    /// The tool declared under `name`.
    pub fn tool(&self, name: &str) -> (r: Option<&ToolManifest>)
        ensures
            r is Some <==> self.spec_tool(name@) is Some,
            r matches Some(t) ==> self.spec_tool(name@) == Some(*t),
    {
        proof {
            use_type_invariant(self);
        }
        let mut k: usize = 0;
        while k < self.tools.len()
            invariant
                k <= self.tools.len(),
                forall|q: int| 0 <= q < k ==> (#[trigger] self.tools@[q]).name@ != name@,
                distinct_upto(tool_names(self.tools@), self.tools@.len() as int),
            decreases self.tools.len() - k,
        {
            if str_equal(self.tools[k].name.as_str(), name) {
                proof {
                    assert(self.spec_tools()[k as int].name@ == name@);
                    let c = choose|q: int| 0 <= q < self.spec_tools().len() && (#[trigger] self.spec_tools()[q]).name@ == name@;
                    let names = tool_names(self.tools@);
                    assert(names[c] == self.tools@[c].name@);
                    assert(names[k as int] == self.tools@[k as int].name@);
                    if c < k {
                        assert(names[c] != names[k as int]);
                    } else if k < c {
                        assert(names[k as int] != names[c]);
                    }
                }
                return Some(&self.tools[k]);
            }
            k = k + 1;
        }
        None
    }

    /// `name` is a declared tool.
    pub fn has_tool(&self, name: &str) -> (r: bool)
        ensures
            r == (self.spec_tool(name@) is Some),
    {
        self.tool(name).is_some()
    }

    /// The names of all declared tools, in increasing order.
    pub fn allowed_tool_names(&self) -> (r: Vec<String>)
        ensures
            r.len() == self.spec_tools().len(),
            strictly_sorted(views(r@)),
            same_names(views(r@), tool_names(self.spec_tools())),
    {
        proof {
            use_type_invariant(self);
        }
        let mut names: Vec<String> = Vec::new();
        let mut k: usize = 0;
        while k < self.tools.len()
            invariant
                k <= self.tools.len(),
                views(names@) == tool_names(self.tools@.subrange(0, k as int)),
                names.len() == k,
            decreases self.tools.len() - k,
        {
            let ghost before = names@;
            names.push(self.tools[k].name.clone());
            proof {
                assert(views(names@) =~= views(before).push(self.tools@[k as int].name@));
                assert(self.tools@.subrange(0, k + 1) =~= self.tools@.subrange(0, k as int).push(self.tools@[k as int]));
                lemma_names_push(self.tools@.subrange(0, k as int), self.tools@[k as int]);
            }
            k = k + 1;
        }
        proof {
            assert(self.tools@.subrange(0, k as int) =~= self.tools@);
            assert forall|a: int, b: int| 0 <= a < b < names.len() implies (#[trigger] names@[a])@ != (#[trigger] names@[b])@ by {
                assert(views(names@)[a] == tool_names(self.tools@)[a]);
                assert(views(names@)[b] == tool_names(self.tools@)[b]);
            }
        }
        sort_distinct_names(names)
    }
}

} // verus!
