//! MCP client-side naming and call results.

use vstd::prelude::*;
use crate::isolation::IsolationReport;
use crate::metrics::ResourceMetrics;

verus! {

/// The wire name of an allowlist tool id: every `.` becomes `_`.
pub open spec fn spec_wire_name(s: Seq<char>) -> Seq<char> {
    s.map_values(|c: char| if c == '.' { '_' } else { c })
}

/// Maps RMNG allowlist tool ids (`git.log`) to MCP wire names (`git_log`).
pub fn wire_tool_name(allowlist_name: &str) -> (r: String)
    ensures
        r@ == spec_wire_name(allowlist_name@),
{
    let n = allowlist_name.unicode_len();
    let mut r = String::new();
    let mut i: usize = 0;
    while i < n
        invariant
            n == allowlist_name@.len(),
            i <= n,
            r@ == spec_wire_name(allowlist_name@.subrange(0, i as int)),
        decreases n - i,
    {
        let c = allowlist_name.get_char(i);
        let ghost before = r@;
        if c == '.' {
            proof {
                reveal_strlit("_");
            }
            r.append("_");
            assert(r@ =~= before.push('_'));
        } else {
            let piece = allowlist_name.substring_char(i, i + 1);
            assert(piece@ =~= seq![c]);
            r.append(piece);
            assert(r@ =~= before.push(c));
        }
        proof {
            assert(spec_wire_name(allowlist_name@.subrange(0, i + 1)) =~= spec_wire_name(
                allowlist_name@.subrange(0, i as int),
            ).push(if c == '.' { '_' } else { c }));
        }
        i = i + 1;
    }
    proof {
        assert(allowlist_name@.subrange(0, n as int) =~= allowlist_name@);
    }
    r
}

/// Wire names hold no `.`, keep the length of the tool id, and mapping a
/// wire name again leaves it unchanged.
pub proof fn law_wire_name_shape(s: Seq<char>)
    ensures
        !spec_wire_name(s).contains('.'),
        spec_wire_name(s).len() == s.len(),
        spec_wire_name(spec_wire_name(s)) == spec_wire_name(s),
{
    assert(spec_wire_name(spec_wire_name(s)) =~= spec_wire_name(s));
}

/// Result of one isolated MCP subprocess call.
#[derive(Debug, Clone)]
pub struct McpCallResult {
    pub output: String,
    pub pid: Option<u32>,
    pub duration_ms: u64,
    pub resources: ResourceMetrics,
    pub isolation: IsolationReport,
}

} // verus!
