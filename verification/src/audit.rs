//! Audit log location and the execution-track labels of audit entries.

use vstd::prelude::*;
use crate::paths::{join, spec_join};
use crate::text::owned;

verus! {

/// Execution plane of an audited action.
#[derive(Debug, Clone, Copy, PartialEq, Eq, Structural)]
pub enum AuditTrack {
    Native,
    Mcp,
    Plan,
}

pub open spec fn spec_track_label(t: AuditTrack) -> Seq<char> {
    match t {
        AuditTrack::Native => "native"@,
        AuditTrack::Mcp => "mcp"@,
        AuditTrack::Plan => "plan"@,
    }
}

/// The label shown for a track (its serialized name).
pub fn audit_track_label(t: AuditTrack) -> (r: String)
    ensures
        r@ == spec_track_label(t),
{
    match t {
        AuditTrack::Native => owned("native"),
        AuditTrack::Mcp => owned("mcp"),
        AuditTrack::Plan => owned("plan"),
    }
}

/// Append-only JSONL audit log at a path.
#[derive(Debug, Clone)]
pub struct AuditLog {
    path: String,
}

/// The log directory: `$HOME/.rmng/logs`, or `/tmp/rmng/logs` without `HOME`.
pub open spec fn spec_log_dir(home: Option<Seq<char>>) -> Seq<char> {
    match home {
        Some(h) => spec_join(spec_join(h, ".rmng"@), "logs"@),
        None => "/tmp/rmng/logs"@,
    }
}

impl AuditLog {
    pub closed spec fn spec_path(&self) -> Seq<char> {
        self.path@
    }

    pub fn new(path: &str) -> (r: Self)
        ensures
            r.spec_path() == path@,
    {
        AuditLog { path: owned(path) }
    }

    pub fn path(&self) -> (r: &str)
        ensures
            r@ == self.spec_path(),
    {
        self.path.as_str()
    }

    /// `audit.jsonl` inside the log directory of the given home.
    pub fn default_path_for(home: Option<&str>) -> (r: String)
        ensures
            r@ == spec_join(spec_log_dir(crate::seccomp::opt_str_view(home)), "audit.jsonl"@),
    {
        let dir = match home {
            Some(h) => {
                let d = join(h, ".rmng");
                join(d.as_str(), "logs")
            },
            None => owned("/tmp/rmng/logs"),
        };
        join(dir.as_str(), "audit.jsonl")
    }
}

} // verus!
