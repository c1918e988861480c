//! Multi-hop orchestration policy: what happens when one hop of a handoff
//! chain fails.

use vstd::prelude::*;
use crate::intent::Metadata;
use crate::text::{lower, trim, trimmed_lower_eq};

verus! {

/// Action when an individual chain hop fails.
#[derive(Debug, Clone, Copy, PartialEq, Eq, Structural)]
pub enum HopFailurePolicy {
    /// Stop the chain and surface the error.
    Abort,
    /// Retry the same hop up to `hop_retry_max` times, then abort.
    Retry,
    /// Record the failure, skip the failed target, and continue with the next agent.
    Skip,
}

impl Default for HopFailurePolicy {
    fn default() -> (r: Self)
        ensures
            r == HopFailurePolicy::Abort,
    {
        HopFailurePolicy::Abort
    }
}

/// Options controlling multi-hop chain execution.
#[derive(Debug, Clone, Copy, PartialEq, Eq, Structural)]
pub struct HandoffChainOptions {
    pub hop_failure_policy: HopFailurePolicy,
    /// Used only when the policy is `Retry`.
    pub hop_retry_max: u32,
}

impl Default for HandoffChainOptions {
    fn default() -> (r: Self)
        ensures
            r == (HandoffChainOptions { hop_failure_policy: HopFailurePolicy::Abort, hop_retry_max: 2 }),
    {
        HandoffChainOptions { hop_failure_policy: HopFailurePolicy::Abort, hop_retry_max: 2 }
    }
}

/// Policy named by a string, after trimming and ASCII-lowercasing: `abort`
/// (or nothing at all), `retry`, `skip`.
pub open spec fn spec_parse_policy(raw: Seq<char>) -> Option<HopFailurePolicy> {
    let w = lower(trim(raw));
    if w == "abort"@ || w == ""@ {
        Some(HopFailurePolicy::Abort)
    } else if w == "retry"@ {
        Some(HopFailurePolicy::Retry)
    } else if w == "skip"@ {
        Some(HopFailurePolicy::Skip)
    } else {
        None
    }
}

/// Options from intent metadata: an unreadable or missing policy means
/// `Abort`; the retry bound defaults to 2 and is at least 1.
pub open spec fn spec_options_from(meta: Metadata) -> HandoffChainOptions {
    HandoffChainOptions {
        hop_failure_policy: match meta.hop_failure_policy {
            Some(p) => match spec_parse_policy(p@) {
                Some(x) => x,
                None => HopFailurePolicy::Abort,
            },
            None => HopFailurePolicy::Abort,
        },
        hop_retry_max: match meta.hop_retry_max {
            Some(n) => if n < 1 { 1 } else { n },
            None => 2,
        },
    }
}

/// Parse policy strings from LLM metadata or the CLI.
pub fn parse_hop_failure_policy(raw: &str) -> (r: Option<HopFailurePolicy>)
    ensures
        r == spec_parse_policy(raw@),
{
    if trimmed_lower_eq(raw, "abort") || trimmed_lower_eq(raw, "") {
        Some(HopFailurePolicy::Abort)
    } else if trimmed_lower_eq(raw, "retry") {
        Some(HopFailurePolicy::Retry)
    } else if trimmed_lower_eq(raw, "skip") {
        Some(HopFailurePolicy::Skip)
    } else {
        None
    }
}

impl HandoffChainOptions {
    pub const DEFAULT_RETRY_MAX: u32 = 2;

    pub fn from_metadata(meta: &Metadata) -> (r: Self)
        ensures
            r == spec_options_from(*meta),
            r.hop_retry_max >= 1,
    {
        let hop_failure_policy = match &meta.hop_failure_policy {
            Some(p) => match parse_hop_failure_policy(p.as_str()) {
                Some(x) => x,
                None => HopFailurePolicy::Abort,
            },
            None => HopFailurePolicy::Abort,
        };
        let n = match meta.hop_retry_max {
            Some(n) => n,
            None => Self::DEFAULT_RETRY_MAX,
        };
        let hop_retry_max = if n < 1 { 1 } else { n };
        HandoffChainOptions { hop_failure_policy, hop_retry_max }
    }
}

/// The policy names round-trip: each policy's own name parses back to it.
pub proof fn law_policy_names_parse_back()
    ensures
        spec_parse_policy("abort"@) == Some(HopFailurePolicy::Abort),
        spec_parse_policy("retry"@) == Some(HopFailurePolicy::Retry),
        spec_parse_policy("skip"@) == Some(HopFailurePolicy::Skip),
{
    reveal_strlit("abort");
    reveal_strlit("retry");
    reveal_strlit("skip");
    reveal_strlit("");
    assert(lower(trim("abort"@)) =~= "abort"@);
    assert(lower(trim("retry"@)) =~= "retry"@);
    assert(lower(trim("skip"@)) =~= "skip"@);
}

} // verus!
