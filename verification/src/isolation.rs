//! Resource limits for MCP and tool subprocesses, how per-server limits are
//! layered over defaults, and the report of what was applied.

use vstd::prelude::*;
use crate::seccomp::{normalize_profile, profile_disabled, spec_normalize_profile, spec_profile_disabled};
use crate::text::{clone_opt_string, concat2, concat3, concat4, decimal, decimal_string, opt_view, owned, views};

verus! {

/// Limits requested for one subprocess.
#[derive(Debug, Clone, PartialEq, Eq)]
pub struct IsolationLimits {
    /// Max address space (MB) via RLIMIT_AS.
    pub memory_mb: Option<u32>,
    /// CPU percentage for the cgroup `cpu.max` quota.
    pub cpu_percent: Option<u32>,
    /// Max child processes (RLIMIT_NPROC).
    pub pids_max: Option<u32>,
    /// Start the child in a new session (setsid).
    pub new_session: bool,
    /// Place the child in a cgroup v2 group of its own.
    pub cgroup: bool,
    /// Set `no_new_privs` before exec.
    pub no_new_privs: bool,
    /// Seccomp profile name: `basic`, `playwright`, `e2b` or `off`.
    pub seccomp_profile: Option<String>,
    /// Drop all Linux capabilities before exec.
    pub drop_capabilities: bool,
}

/// What was applied to one subprocess, for audit and observe output.
#[derive(Debug, Clone)]
pub struct IsolationReport {
    pub cgroup_path: Option<String>,
    pub rlimit_as: Option<u32>,
    pub rlimit_nproc: Option<u32>,
    pub new_session: bool,
    pub no_new_privs: bool,
    pub seccomp_profile: Option<String>,
    pub seccomp_applied: bool,
    pub capabilities_dropped: bool,
    pub warnings: Vec<String>,
}

/// The limits with nothing requested.
pub open spec fn no_limits() -> IsolationLimits {
    IsolationLimits {
        memory_mb: None,
        cpu_percent: None,
        pids_max: None,
        new_session: false,
        cgroup: false,
        no_new_privs: false,
        seccomp_profile: None,
        drop_capabilities: false,
    }
}

impl Default for IsolationLimits {
    fn default() -> (r: Self)
        ensures
            r == no_limits(),
    {
        IsolationLimits {
            memory_mb: None,
            cpu_percent: None,
            pids_max: None,
            new_session: false,
            cgroup: false,
            no_new_privs: false,
            seccomp_profile: None,
            drop_capabilities: false,
        }
    }
}

/// `a.or(b)`: the first value present.
pub open spec fn or_else<T>(a: Option<T>, b: Option<T>) -> Option<T> {
    match a {
        Some(x) => Some(x),
        None => b,
    }
}

/// Override values win where they are set; flags are on when either side has them on.
pub open spec fn spec_merge(base: IsolationLimits, o: IsolationLimits) -> IsolationLimits {
    IsolationLimits {
        memory_mb: or_else(o.memory_mb, base.memory_mb),
        cpu_percent: or_else(o.cpu_percent, base.cpu_percent),
        pids_max: or_else(o.pids_max, base.pids_max),
        new_session: o.new_session || base.new_session,
        cgroup: o.cgroup || base.cgroup,
        no_new_privs: o.no_new_privs || base.no_new_privs,
        seccomp_profile: or_else(o.seccomp_profile, base.seccomp_profile),
        drop_capabilities: o.drop_capabilities || base.drop_capabilities,
    }
}

/// Some isolation measure is requested: a limit, a flag, or a seccomp
/// profile whose name stands for a known profile.
pub open spec fn spec_is_active(l: IsolationLimits) -> bool {
    ||| l.memory_mb is Some
    ||| l.pids_max is Some
    ||| l.cpu_percent is Some
    ||| l.new_session
    ||| l.cgroup
    ||| l.no_new_privs
    ||| (l.seccomp_profile matches Some(p) && spec_normalize_profile(p@) is Some)
    ||| l.drop_capabilities
}

fn or_u32(a: Option<u32>, b: Option<u32>) -> (r: Option<u32>)
    ensures
        r == or_else(a, b),
{
    match a {
        Some(x) => Some(x),
        None => b,
    }
}

impl IsolationLimits {
    /// A field-by-field copy.
    pub fn copy_of(&self) -> (r: Self)
        ensures
            r == *self,
    {
        IsolationLimits {
            memory_mb: self.memory_mb,
            cpu_percent: self.cpu_percent,
            pids_max: self.pids_max,
            new_session: self.new_session,
            cgroup: self.cgroup,
            no_new_privs: self.no_new_privs,
            seccomp_profile: clone_opt_string(&self.seccomp_profile),
            drop_capabilities: self.drop_capabilities,
        }
    }

    pub fn merge(base: &Self, override_: Option<&Self>) -> (r: Self)
        ensures
            override_ is None ==> r == *base,
            override_ matches Some(o) ==> r == spec_merge(*base, *o),
    {
        match override_ {
            None => base.copy_of(),
            Some(o) => {
                let seccomp_profile = match &o.seccomp_profile {
                    Some(p) => Some(p.clone()),
                    None => clone_opt_string(&base.seccomp_profile),
                };
                IsolationLimits {
                    memory_mb: or_u32(o.memory_mb, base.memory_mb),
                    cpu_percent: or_u32(o.cpu_percent, base.cpu_percent),
                    pids_max: or_u32(o.pids_max, base.pids_max),
                    new_session: o.new_session || base.new_session,
                    cgroup: o.cgroup || base.cgroup,
                    no_new_privs: o.no_new_privs || base.no_new_privs,
                    seccomp_profile,
                    drop_capabilities: o.drop_capabilities || base.drop_capabilities,
                }
            },
        }
    }

    pub fn is_active(&self) -> (r: bool)
        ensures
            r == spec_is_active(*self),
    {
        let seccomp = match &self.seccomp_profile {
            Some(p) => normalize_profile(p.as_str()).is_some(),
            None => false,
        };
        self.memory_mb.is_some() || self.pids_max.is_some() || self.cpu_percent.is_some()
            || self.new_session || self.cgroup || self.no_new_privs || seccomp
            || self.drop_capabilities
    }
}

/// `format!("{:?}", s)` for a string: the quoted, escaped form.
pub uninterp spec fn debug_quoted(s: Seq<char>) -> Seq<char>;

/// Debug form of a string slice (`str`'s `Debug`).
#[verifier::external_body]
fn debug_str(s: &str) -> (r: String)
    ensures
        r@ == debug_quoted(s@),
{
    format!("{:?}", s)
}

/// The report's seccomp profile: the canonical profile when the configured
/// name stands for one.
pub open spec fn report_profile(l: IsolationLimits) -> Option<Seq<char>> {
    match l.seccomp_profile {
        Some(p) => spec_normalize_profile(p@),
        None => None,
    }
}

/// The warning added when a configured seccomp name stands for no profile.
pub open spec fn unknown_profile_warning(p: Seq<char>) -> Seq<char> {
    "seccomp: unknown profile Some("@ + debug_quoted(p) + ")"@
}

/// The warning owed for the configured seccomp profile: one for a name
/// that is neither a known profile nor one that turns seccomp off.
pub open spec fn profile_warnings(l: IsolationLimits) -> Seq<Seq<char>> {
    match l.seccomp_profile {
        Some(p) => if spec_normalize_profile(p@) is None && !spec_profile_disabled(p@) {
            seq![unknown_profile_warning(p@)]
        } else {
            Seq::empty()
        },
        None => Seq::empty(),
    }
}

/// `r` reports `limits` with the given cgroup path and the given warnings
/// (those owed for the profile come after them).
pub open spec fn is_report(r: IsolationReport, limits: IsolationLimits, cgroup: Option<String>, warnings: Seq<Seq<char>>) -> bool {
    &&& r.cgroup_path == cgroup
    &&& r.rlimit_as == limits.memory_mb
    &&& r.rlimit_nproc == limits.pids_max
    &&& r.new_session == limits.new_session
    &&& r.no_new_privs == limits.no_new_privs
    &&& opt_view(r.seccomp_profile) == report_profile(limits)
    &&& r.seccomp_applied == (report_profile(limits) is Some)
    &&& r.capabilities_dropped == limits.drop_capabilities
    &&& views(r.warnings@) == warnings + profile_warnings(limits)
}

/// The warnings a call adds after the cgroup set-up's own: `cgroup limits
/// not applied` when limits are active, a cgroup was asked for and none was
/// set up.
pub open spec fn call_warnings(limits: IsolationLimits, cgroup: Option<String>, cgroup_warnings: Seq<String>) -> Seq<Seq<char>> {
    if spec_is_active(limits) && cgroup is None && limits.cgroup {
        views(cgroup_warnings).push("cgroup limits not applied"@)
    } else {
        views(cgroup_warnings)
    }
}

/// The report of what `limits` asks for, with the cgroup path that was set
/// up (if any) and the warnings collected so far.
pub fn build_report(limits: &IsolationLimits, cgroup: Option<String>, warnings: Vec<String>) -> (r: IsolationReport)
    ensures
        is_report(r, *limits, cgroup, views(warnings@)),
{
    let mut warnings = warnings;
    let mut seccomp_profile: Option<String> = None;
    match &limits.seccomp_profile {
        Some(p) => match normalize_profile(p.as_str()) {
            Some(canonical) => {
                seccomp_profile = Some(owned(canonical));
            },
            None => if !profile_disabled(p.as_str()) {
                let shown = debug_str(p.as_str());
                let w = concat3("seccomp: unknown profile Some(", shown.as_str(), ")");
                let ghost before = warnings@;
                warnings.push(w);
                proof {
                    assert(views(warnings@) =~= views(before) + seq![unknown_profile_warning(p@)]);
                }
            },
        },
        None => {},
    }
    let seccomp_applied = seccomp_profile.is_some();
    proof {
        if !(limits.seccomp_profile is Some && spec_normalize_profile(limits.seccomp_profile->Some_0@) is None
            && !spec_profile_disabled(limits.seccomp_profile->Some_0@)) {
            assert(views(warnings@) =~= views(warnings@) + Seq::<Seq<char>>::empty());
        }
    }
    IsolationReport {
        cgroup_path: cgroup,
        rlimit_as: limits.memory_mb,
        rlimit_nproc: limits.pids_max,
        new_session: limits.new_session,
        no_new_privs: limits.no_new_privs,
        seccomp_profile,
        seccomp_applied,
        capabilities_dropped: limits.drop_capabilities,
        warnings,
    }
}

/// The report after a call: a requested cgroup that could not be set up
/// adds the warning `cgroup limits not applied`.
pub fn call_isolation_report(limits: &IsolationLimits, cgroup: Option<String>, cgroup_warnings: Vec<String>) -> (r: IsolationReport)
    ensures
        is_report(r, *limits, cgroup, call_warnings(*limits, cgroup, cgroup_warnings@)),
{
    let mut warnings = cgroup_warnings;
    let ghost added = warnings@;
    if limits.is_active() && cgroup.is_none() && limits.cgroup {
        warnings.push(owned("cgroup limits not applied"));
        proof {
            assert(views(warnings@) =~= views(added).push("cgroup limits not applied"@));
        }
    }
    build_report(limits, cgroup, warnings)
}

/// The cgroup quota for a CPU percentage: `percent * 1000` out of a
/// 100000-microsecond period, saturating.
pub open spec fn cpu_quota(pct: u32) -> u64 {
    if pct * 1000 > u64::MAX { u64::MAX } else { (pct * 1000) as u64 }
}

/// The cgroup v2 control files written for a group and their contents:
/// `memory.max` (`<mb>M`), `cpu.max` (`<quota> 100000`) and `pids.max`,
/// each only when its limit is set, in that order.
pub open spec fn spec_cgroup_files(l: IsolationLimits) -> Seq<(Seq<char>, Seq<char>)> {
    let mem: Seq<(Seq<char>, Seq<char>)> = match l.memory_mb {
        Some(mb) => seq![("memory.max"@, decimal(mb as nat) + "M"@)],
        None => Seq::empty(),
    };
    let cpu: Seq<(Seq<char>, Seq<char>)> = match l.cpu_percent {
        Some(pct) => seq![("cpu.max"@, decimal(cpu_quota(pct) as nat) + " 100000"@)],
        None => Seq::empty(),
    };
    let pids: Seq<(Seq<char>, Seq<char>)> = match l.pids_max {
        Some(n) => seq![("pids.max"@, decimal(n as nat))],
        None => Seq::empty(),
    };
    mem + cpu + pids
}

pub open spec fn pair_views(v: Seq<(String, String)>) -> Seq<(Seq<char>, Seq<char>)> {
    v.map_values(|p: (String, String)| (p.0@, p.1@))
}

pub fn cgroup_files(limits: &IsolationLimits) -> (r: Vec<(String, String)>)
    ensures
        pair_views(r@) == spec_cgroup_files(*limits),
{
    let mut r: Vec<(String, String)> = Vec::new();
    if let Some(mb) = limits.memory_mb {
        let n = decimal_string(mb as u64);
        r.push((owned("memory.max"), concat2(n.as_str(), "M")));
    }
    if let Some(pct) = limits.cpu_percent {
        let quota: u64 = (pct as u64) * 1000;
        let n = decimal_string(quota);
        r.push((owned("cpu.max"), concat2(n.as_str(), " 100000")));
    }
    if let Some(pids) = limits.pids_max {
        r.push((owned("pids.max"), decimal_string(pids as u64)));
    }
    proof {
        assert(pair_views(r@) =~= spec_cgroup_files(*limits));
    }
    r
}

/// The name of the cgroup directory for one call.
pub fn cgroup_dir_name(id: &str) -> (r: String)
    ensures
        r@ == "rmng-mcp-"@ + id@,
{
    concat2("rmng-mcp-", id)
}

/// The cgroup directories tried, in order, when `RMNG_CGROUP_BASE` is not
/// set: the user's slice, the user's service manager, the root.
pub open spec fn spec_cgroup_candidates(uid: u32) -> Seq<Seq<char>> {
    let u = decimal(uid as nat);
    seq![
        "/sys/fs/cgroup/user.slice/user-"@ + u + ".slice"@,
        "/sys/fs/cgroup/user.slice/user-"@ + u + ".slice/user@"@ + u + ".service"@,
        "/sys/fs/cgroup"@,
    ]
}

pub fn user_cgroup_candidates(uid: u32) -> (r: Vec<String>)
    ensures
        r@.map_values(|s: String| s@) == spec_cgroup_candidates(uid),
{
    let u = decimal_string(uid as u64);
    let first = concat3("/sys/fs/cgroup/user.slice/user-", u.as_str(), ".slice");
    let a = concat4("/sys/fs/cgroup/user.slice/user-", u.as_str(), ".slice/user@", u.as_str());
    let second = concat2(a.as_str(), ".service");
    let r = vec![first, second, owned("/sys/fs/cgroup")];
    proof {
        assert(r@.map_values(|s: String| s@) =~= spec_cgroup_candidates(uid));
    }
    r
}

/// The warning when no delegated cgroup directory was found.
pub fn no_cgroup_base_warning() -> (r: String)
    ensures
        r@ == "cgroup: no user delegation path (set RMNG_CGROUP_BASE)"@,
{
    owned("cgroup: no user delegation path (set RMNG_CGROUP_BASE)")
}

/// The warning when a cgroup directory could not be created.
pub fn cgroup_create_warning(path: &str) -> (r: String)
    ensures
        r@ == "cgroup: cannot create "@ + path@,
{
    concat2("cgroup: cannot create ", path)
}

/// The address-space limit (`RLIMIT_AS`) for a memory limit in MiB, in bytes.
pub fn address_space_bytes(mb: u32) -> (r: u64)
    ensures
        r == mb * 1048576,
{
    assert(mb * 1048576 <= u64::MAX) by (nonlinear_arith)
        requires
            mb <= u32::MAX,
    ;
    (mb as u64) * 1048576
}

/// Merging without an override keeps the base; merging a configuration
/// over itself changes nothing.
pub proof fn law_merge_idempotent(l: IsolationLimits)
    ensures
        spec_merge(l, l) == l,
{
}

/// Layering configurations is associative: merging `c` over the merge of
/// `b` over `a` equals merging the merge of `c` over `b` over `a`.
pub proof fn law_merge_associative(a: IsolationLimits, b: IsolationLimits, c: IsolationLimits)
    ensures
        spec_merge(spec_merge(a, b), c) == spec_merge(a, spec_merge(b, c)),
{
}

/// An override that asks for isolation keeps the merged limits active.
pub proof fn law_active_override_stays_active(base: IsolationLimits, o: IsolationLimits)
    requires
        spec_is_active(o),
    ensures
        spec_is_active(spec_merge(base, o)),
{
}

/// Merging over the empty limits gives the override back.
pub proof fn law_merge_over_nothing(o: IsolationLimits)
    ensures
        spec_merge(no_limits(), o) == o,
{
}

/// A per-server override wins: every limit it sets is the merged limit,
/// every limit it leaves unset comes from the defaults, and a flag is on
/// when either side turns it on.
pub proof fn law_override_wins(base: IsolationLimits, o: IsolationLimits)
    ensures
        o.memory_mb is Some ==> spec_merge(base, o).memory_mb == o.memory_mb,
        o.cpu_percent is Some ==> spec_merge(base, o).cpu_percent == o.cpu_percent,
        o.pids_max is Some ==> spec_merge(base, o).pids_max == o.pids_max,
        o.seccomp_profile is Some ==> spec_merge(base, o).seccomp_profile == o.seccomp_profile,
        o.memory_mb is None ==> spec_merge(base, o).memory_mb == base.memory_mb,
        o.cpu_percent is None ==> spec_merge(base, o).cpu_percent == base.cpu_percent,
        o.pids_max is None ==> spec_merge(base, o).pids_max == base.pids_max,
        o.seccomp_profile is None ==> spec_merge(base, o).seccomp_profile == base.seccomp_profile,
        spec_merge(base, o).new_session == (o.new_session || base.new_session),
        spec_merge(base, o).cgroup == (o.cgroup || base.cgroup),
        spec_merge(base, o).no_new_privs == (o.no_new_privs || base.no_new_privs),
        spec_merge(base, o).drop_capabilities == (o.drop_capabilities || base.drop_capabilities),
{
}

} // verus!
