//! The MCP allowlist (`~/.rmng/mcp-allowlist.toml`): only servers listed
//! there may be proxied, and only the tools listed for them.

use vstd::prelude::*;
use crate::isolation::IsolationLimits;
use crate::paths::{home_path, spec_home_path};
use crate::seccomp::opt_str_view;
use crate::text::{contains_name, names_contain, str_equal};

verus! {

/// One MCP server entry.
#[derive(Debug, Clone, PartialEq, Eq)]
pub struct McpServerConfig {
    pub enabled: bool,
    pub command: String,
    pub args: Vec<String>,
    pub allowed_tools: Vec<String>,
    /// Per-server isolation limits layered over the defaults.
    pub isolation: Option<IsolationLimits>,
}

/// Server name to configuration. Entries are kept in insertion order and a
/// name is looked up at its first occurrence.
#[derive(Debug, Clone, PartialEq, Eq)]
pub struct McpAllowlist {
    servers: Vec<(String, McpServerConfig)>,
}

/// `i` is the first position whose server name is `name`.
pub open spec fn is_first(entries: Seq<(String, McpServerConfig)>, name: Seq<char>, i: int) -> bool {
    &&& 0 <= i < entries.len()
    &&& entries[i].0@ == name
    &&& forall|j: int| 0 <= j < i ==> (#[trigger] entries[j]).0@ != name
}

/// The configuration stored under `name`, if any.
pub open spec fn lookup_in(entries: Seq<(String, McpServerConfig)>, name: Seq<char>) -> Option<McpServerConfig> {
    if exists|i: int| is_first(entries, name, i) {
        Some(entries[choose|i: int| is_first(entries, name, i)].1)
    } else {
        None
    }
}

proof fn lemma_first_unique(entries: Seq<(String, McpServerConfig)>, name: Seq<char>, i: int, j: int)
    requires
        is_first(entries, name, i),
        is_first(entries, name, j),
    ensures
        i == j,
{
    if i < j {
        assert(entries[i].0@ != name);
    } else if j < i {
        assert(entries[j].0@ != name);
    }
}

proof fn lemma_lookup_at(entries: Seq<(String, McpServerConfig)>, name: Seq<char>, i: int)
    requires
        is_first(entries, name, i),
    ensures
        lookup_in(entries, name) == Some(entries[i].1),
{
    let c = choose|k: int| is_first(entries, name, k);
    lemma_first_unique(entries, name, i, c);
}

proof fn lemma_lookup_absent(entries: Seq<(String, McpServerConfig)>, name: Seq<char>)
    requires
        forall|k: int| 0 <= k < entries.len() ==> (#[trigger] entries[k]).0@ != name,
    ensures
        lookup_in(entries, name) is None,
{
}

proof fn lemma_lookup_same(a: Seq<(String, McpServerConfig)>, b: Seq<(String, McpServerConfig)>, name: Seq<char>)
    requires
        forall|k: int| is_first(a, name, k) <==> is_first(b, name, k),
        forall|k: int| is_first(a, name, k) ==> a[k].1 == b[k].1,
    ensures
        lookup_in(a, name) == lookup_in(b, name),
{
    if exists|i: int| is_first(a, name, i) {
        let i = choose|i: int| is_first(a, name, i);
        lemma_lookup_at(a, name, i);
        lemma_lookup_at(b, name, i);
    }
}

impl McpAllowlist {
    /// The configuration stored under `name`, enabled or not.
    pub closed spec fn lookup(&self, name: Seq<char>) -> Option<McpServerConfig> {
        lookup_in(self.servers@, name)
    }

    /// `tool` may be proxied to `server`: the server is configured and
    /// enabled and lists the tool.
    pub open spec fn spec_tool_allowed(&self, server: Seq<char>, tool: Seq<char>) -> bool {
        match self.lookup(server) {
            Some(c) => c.enabled && names_contain(c.allowed_tools@, tool),
            None => false,
        }
    }

    /// No server is configured.
    pub fn new() -> (r: Self)
        ensures
            forall|n: Seq<char>| r.lookup(n) is None,
    {
        McpAllowlist { servers: Vec::new() }
    }

    /// The configured entries in insertion order.
    pub fn servers(&self) -> (r: &Vec<(String, McpServerConfig)>)
        ensures
            forall|n: Seq<char>| #[trigger] self.lookup(n) == lookup_in(r@, n),
    {
        &self.servers
    }

    /// Position of the entry for `name`.
    fn find(&self, name: &str) -> (r: Option<usize>)
        ensures
            r matches Some(i) ==> is_first(self.servers@, name@, i as int),
            r is None ==> forall|k: int| 0 <= k < self.servers@.len() ==> (#[trigger] self.servers@[k]).0@ != name@,
    {
        let mut i: usize = 0;
        while i < self.servers.len()
            invariant
                i <= self.servers@.len(),
                forall|k: int| 0 <= k < i ==> (#[trigger] self.servers@[k]).0@ != name@,
            decreases self.servers@.len() - i,
        {
            if str_equal(self.servers[i].0.as_str(), name) {
                return Some(i);
            }
            i = i + 1;
        }
        None
    }

    /// Stores `config` under `name`, replacing an earlier entry of that name
    /// (`HashMap::insert`).
    pub fn insert(&mut self, name: String, config: McpServerConfig)
        ensures
            final(self).lookup(name@) == Some(config),
            forall|n: Seq<char>| n != name@ ==> #[trigger] final(self).lookup(n) == old(self).lookup(n),
    {
        let ghost old_entries = self.servers@;
        let ghost key = name@;
        let ghost cfg = config;
        match self.find(name.as_str()) {
            Some(i) => {
                self.servers.set(i, (name, config));
                proof {
                    let new_entries = self.servers@;
                    assert(is_first(new_entries, key, i as int));
                    lemma_lookup_at(new_entries, key, i as int);
                    assert forall|n: Seq<char>| n != key implies #[trigger] lookup_in(new_entries, n) == lookup_in(old_entries, n) by {
                        assert forall|k: int| is_first(new_entries, n, k) <==> is_first(old_entries, n, k) by {
                            if is_first(old_entries, n, k) {
                                assert forall|j: int| 0 <= j < k implies (#[trigger] new_entries[j]).0@ != n by {
                                    if j != i {
                                        assert(new_entries[j] == old_entries[j]);
                                    }
                                }
                            }
                            if is_first(new_entries, n, k) {
                                assert(k != i);
                                assert forall|j: int| 0 <= j < k implies (#[trigger] old_entries[j]).0@ != n by {
                                    if j != i {
                                        assert(new_entries[j] == old_entries[j]);
                                    }
                                }
                            }
                        }
                        lemma_lookup_same(new_entries, old_entries, n);
                    }
                }
            },
            None => {
                self.servers.push((name, config));
                proof {
                    let new_entries = self.servers@;
                    let last = old_entries.len() as int;
                    assert(new_entries[last].0@ == key);
                    assert forall|j: int| 0 <= j < last implies (#[trigger] new_entries[j]).0@ != key by {
                        assert(new_entries[j] == old_entries[j]);
                    }
                    assert(is_first(new_entries, key, last));
                    lemma_lookup_at(new_entries, key, last);
                    assert forall|n: Seq<char>| n != key implies #[trigger] lookup_in(new_entries, n) == lookup_in(old_entries, n) by {
                        assert forall|k: int| is_first(new_entries, n, k) <==> is_first(old_entries, n, k) by {
                            if is_first(old_entries, n, k) {
                                assert forall|j: int| 0 <= j < k implies (#[trigger] new_entries[j]).0@ != n by {
                                    assert(new_entries[j] == old_entries[j]);
                                }
                            }
                            if is_first(new_entries, n, k) {
                                assert(k != last);
                                assert forall|j: int| 0 <= j < k implies (#[trigger] old_entries[j]).0@ != n by {
                                    assert(new_entries[j] == old_entries[j]);
                                }
                            }
                        }
                        lemma_lookup_same(new_entries, old_entries, n);
                    }
                }
            },
        }
    }

    /// The configuration stored under `name`, enabled or not (`HashMap::get`).
    pub fn get(&self, name: &str) -> (r: Option<&McpServerConfig>)
        ensures
            r is Some <==> self.lookup(name@) is Some,
            r matches Some(c) ==> self.lookup(name@) == Some(*c),
    {
        match self.find(name) {
            Some(i) => {
                proof {
                    lemma_lookup_at(self.servers@, name@, i as int);
                }
                Some(&self.servers[i].1)
            },
            None => {
                proof {
                    lemma_lookup_absent(self.servers@, name@);
                }
                None
            },
        }
    }

    /// The configuration of an enabled server; disabled or unknown servers give none.
    pub fn server_config(&self, name: &str) -> (r: Option<&McpServerConfig>)
        ensures
            r is Some <==> (self.lookup(name@) matches Some(c) && c.enabled),
            r matches Some(c) ==> self.lookup(name@) == Some(*c),
    {
        match self.find(name) {
            Some(i) => {
                proof {
                    lemma_lookup_at(self.servers@, name@, i as int);
                }
                if self.servers[i].1.enabled {
                    Some(&self.servers[i].1)
                } else {
                    None
                }
            },
            None => {
                proof {
                    lemma_lookup_absent(self.servers@, name@);
                }
                None
            },
        }
    }

    pub fn is_tool_allowed(&self, server: &str, tool: &str) -> (r: bool)
        ensures
            r == self.spec_tool_allowed(server@, tool@),
    {
        match self.find(server) {
            Some(i) => {
                proof {
                    lemma_lookup_at(self.servers@, server@, i as int);
                }
                let cfg = &self.servers[i].1;
                cfg.enabled && contains_name(&cfg.allowed_tools, tool)
            },
            None => {
                proof {
                    lemma_lookup_absent(self.servers@, server@);
                }
                false
            },
        }
    }

    /// The allowlist file for a home directory: `$HOME/.rmng/mcp-allowlist.toml`,
    /// or `/tmp/rmng/mcp-allowlist.toml` when `HOME` is unset.
    pub fn config_path_for(home: Option<&str>) -> (r: String)
        ensures
            r@ == spec_home_path(opt_str_view(home), ".rmng/mcp-allowlist.toml"@, "/tmp/rmng/mcp-allowlist.toml"@),
    {
        home_path(home, ".rmng/mcp-allowlist.toml", "/tmp/rmng/mcp-allowlist.toml")
    }
}

impl Default for McpAllowlist {
    fn default() -> (r: Self)
        ensures
            forall|n: Seq<char>| r.lookup(n) is None,
    {
        McpAllowlist::new()
    }
}

/// Storing a server leaves every other server's allowlist answers as they were.
pub proof fn law_insert_keeps_other_servers(
    before: McpAllowlist,
    after: McpAllowlist,
    name: Seq<char>,
    config: McpServerConfig,
    server: Seq<char>,
    tool: Seq<char>,
)
    requires
        after.lookup(name) == Some(config),
        forall|n: Seq<char>| n != name ==> #[trigger] after.lookup(n) == before.lookup(n),
        server != name,
    ensures
        after.spec_tool_allowed(server, tool) == before.spec_tool_allowed(server, tool),
{
    assert(after.lookup(server) == before.lookup(server));
}

/// What was stored is what is read back: after storing `config` under
/// `name`, a tool is allowed there exactly when `config` is enabled and lists it.
pub proof fn law_insert_then_allowed(after: McpAllowlist, name: Seq<char>, config: McpServerConfig, tool: Seq<char>)
    requires
        after.lookup(name) == Some(config),
    ensures
        after.spec_tool_allowed(name, tool) == (config.enabled && names_contain(config.allowed_tools@, tool)),
{
}

} // verus!
