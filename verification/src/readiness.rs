//! Readiness checks shared by the daemon's validation and `rmng health`.

use vstd::prelude::*;
use crate::text::{concat2, concat3, decimal, decimal_string, owned};

verus! {

#[derive(Debug, Clone, Copy, PartialEq, Eq, Structural)]
pub enum CheckLevel {
    Pass,
    Warn,
    Error,
}

/// One named check and its outcome.
#[derive(Debug, Clone)]
pub struct ReadinessCheck {
    pub id: String,
    pub level: CheckLevel,
    pub message: String,
}

/// All checks; `ok` is false once any check is an error.
#[derive(Debug, Clone)]
pub struct ReadinessReport {
    pub ok: bool,
    pub checks: Vec<ReadinessCheck>,
}

/// No check of the sequence is an error.
pub open spec fn no_error(checks: Seq<ReadinessCheck>) -> bool {
    forall|i: int| 0 <= i < checks.len() ==> (#[trigger] checks[i]).level != CheckLevel::Error
}

impl ReadinessReport {
    /// A report over the given checks, ready when none of them is an error.
    pub fn from_checks(checks: Vec<ReadinessCheck>) -> (r: Self)
        ensures
            r.checks@ == checks@,
            r.ok == no_error(checks@),
    {
        let mut i: usize = 0;
        while i < checks.len()
            invariant
                i <= checks@.len(),
                forall|k: int| 0 <= k < i ==> (#[trigger] checks@[k]).level != CheckLevel::Error,
            decreases checks@.len() - i,
        {
            if checks[i].level == CheckLevel::Error {
                return ReadinessReport { ok: false, checks };
            }
            i = i + 1;
        }
        ReadinessReport { ok: true, checks }
    }

    pub fn push_check(&mut self, check: ReadinessCheck)
        ensures
            final(self).checks@ == old(self).checks@.push(check),
            final(self).ok == (old(self).ok && check.level != CheckLevel::Error),
    {
        if check.level == CheckLevel::Error {
            self.ok = false;
        }
        self.checks.push(check);
    }
}

/// `ok` stays exactly "no check is an error" as checks are pushed.
pub proof fn law_push_check_keeps_ok_consistent(before: ReadinessReport, after: ReadinessReport, check: ReadinessCheck)
    requires
        before.ok == no_error(before.checks@),
        after.checks@ == before.checks@.push(check),
        after.ok == (before.ok && check.level != CheckLevel::Error),
    ensures
        after.ok == no_error(after.checks@),
{
    if before.ok && check.level != CheckLevel::Error {
        assert forall|i: int| 0 <= i < after.checks@.len() implies (#[trigger] after.checks@[i]).level
            != CheckLevel::Error by {
            if i < before.checks@.len() {
                assert(after.checks@[i] == before.checks@[i]);
            }
        }
    } else if check.level == CheckLevel::Error {
        assert(after.checks@[before.checks@.len() as int] == check);
    } else {
        let j = choose|j: int| 0 <= j < before.checks@.len() && (#[trigger] before.checks@[j]).level
            == CheckLevel::Error;
        assert(after.checks@[j] == before.checks@[j]);
    }
}

/// Outcome of loading the agent registry (kept outside the core to avoid a
/// dependency cycle): a count of definitions, a load error, or not checked.
pub open spec fn spec_agent_check(agent_count: Option<Result<usize, Seq<char>>>) -> (CheckLevel, Seq<char>) {
    match agent_count {
        Some(Ok(n)) => if n == 0 {
            (CheckLevel::Error, "agent registry empty — set RMNG_PROJECT_ROOT"@)
        } else {
            (CheckLevel::Pass, decimal(n as nat) + " agent definition(s) loaded"@)
        },
        Some(Err(e)) => (CheckLevel::Error, "registry load failed: "@ + e),
        None => (CheckLevel::Warn, "agent registry not checked"@),
    }
}

pub fn agent_registry_check(agent_count: Option<Result<usize, String>>) -> (r: ReadinessCheck)
    ensures
        r.id@ == "agents"@,
        (r.level, r.message@) == spec_agent_check(match agent_count {
            Some(Ok(n)) => Some(Ok(n)),
            Some(Err(e)) => Some(Err(e@)),
            None => None,
        }),
{
    match agent_count {
        Some(Ok(n)) => {
            if n == 0 {
                ReadinessCheck {
                    id: owned("agents"),
                    level: CheckLevel::Error,
                    message: owned("agent registry empty — set RMNG_PROJECT_ROOT"),
                }
            } else {
                let count = decimal_string(n as u64);
                ReadinessCheck {
                    id: owned("agents"),
                    level: CheckLevel::Pass,
                    message: concat2(count.as_str(), " agent definition(s) loaded"),
                }
            }
        },
        Some(Err(e)) => ReadinessCheck {
            id: owned("agents"),
            level: CheckLevel::Error,
            message: concat2("registry load failed: ", e.as_str()),
        },
        None => ReadinessCheck {
            id: owned("agents"),
            level: CheckLevel::Warn,
            message: owned("agent registry not checked"),
        },
    }
}

fn push_level(checks: &mut Vec<ReadinessCheck>, id: &str, level: CheckLevel, message: String)
    ensures
        final(checks)@.len() == old(checks)@.len() + 1,
        final(checks)@.subrange(0, old(checks)@.len() as int) == old(checks)@,
        final(checks)@.last().id@ == id@,
        final(checks)@.last().level == level,
        final(checks)@.last().message == message,
{
    checks.push(ReadinessCheck { id: owned(id), level, message });
    assert(final(checks)@.subrange(0, old(checks)@.len() as int) =~= old(checks)@);
}

pub fn push_ok(checks: &mut Vec<ReadinessCheck>, id: &str, message: String)
    ensures
        final(checks)@.len() == old(checks)@.len() + 1,
        final(checks)@.subrange(0, old(checks)@.len() as int) == old(checks)@,
        final(checks)@.last().id@ == id@,
        final(checks)@.last().level == CheckLevel::Pass,
        final(checks)@.last().message == message,
{
    push_level(checks, id, CheckLevel::Pass, message);
}

pub fn push_warn(checks: &mut Vec<ReadinessCheck>, id: &str, message: String)
    ensures
        final(checks)@.len() == old(checks)@.len() + 1,
        final(checks)@.subrange(0, old(checks)@.len() as int) == old(checks)@,
        final(checks)@.last().id@ == id@,
        final(checks)@.last().level == CheckLevel::Warn,
        final(checks)@.last().message == message,
{
    push_level(checks, id, CheckLevel::Warn, message);
}

pub fn push_error(checks: &mut Vec<ReadinessCheck>, id: &str, message: String)
    ensures
        final(checks)@.len() == old(checks)@.len() + 1,
        final(checks)@.subrange(0, old(checks)@.len() as int) == old(checks)@,
        final(checks)@.last().id@ == id@,
        final(checks)@.last().level == CheckLevel::Error,
        final(checks)@.last().message == message,
{
    push_level(checks, id, CheckLevel::Error, message);
}

/// Check of a directory shown as `shown`: present is ok; missing is an
/// error when it is required and a warning otherwise. Whether it is a
/// directory is read from disk by the caller.
pub fn push_dir(checks: &mut Vec<ReadinessCheck>, id: &str, shown: &str, is_dir: bool, required: bool)
    ensures
        final(checks)@.len() == old(checks)@.len() + 1,
        final(checks)@.subrange(0, old(checks)@.len() as int) == old(checks)@,
        final(checks)@.last().id@ == id@,
        is_dir ==> final(checks)@.last().level == CheckLevel::Pass && final(checks)@.last().message@ == shown@,
        !is_dir && required ==> final(checks)@.last().level == CheckLevel::Error
            && final(checks)@.last().message@ == "missing directory "@ + shown@,
        !is_dir && !required ==> final(checks)@.last().level == CheckLevel::Warn
            && final(checks)@.last().message@ == "missing "@ + shown@,
{
    if is_dir {
        push_ok(checks, id, owned(shown));
    } else if required {
        push_error(checks, id, concat2("missing directory ", shown));
    } else {
        push_warn(checks, id, concat2("missing ", shown));
    }
}

/// Check of a directory that must be writable: `created`, `exists`, and
/// `writable` are what the caller observed on disk; `error` is the text of
/// the failed write probe.
pub fn push_writable(checks: &mut Vec<ReadinessCheck>, id: &str, shown: &str, existed: bool, created: bool, probe_error: Option<String>)
    ensures
        final(checks)@.len() == old(checks)@.len() + 1,
        final(checks)@.subrange(0, old(checks)@.len() as int) == old(checks)@,
        final(checks)@.last().id@ == id@,
        !existed && created ==> final(checks)@.last().level == CheckLevel::Pass
            && final(checks)@.last().message@ == "created "@ + shown@,
        !existed && !created ==> final(checks)@.last().level == CheckLevel::Error
            && final(checks)@.last().message@ == "cannot create "@ + shown@,
        existed && probe_error is None ==> final(checks)@.last().level == CheckLevel::Pass
            && final(checks)@.last().message@ == shown@ + " writable"@,
        existed ==> (probe_error matches Some(e) ==> final(checks)@.last().level == CheckLevel::Error
            && final(checks)@.last().message@ == shown@ + " not writable: "@ + e@),
{
    if !existed {
        if created {
            push_ok(checks, id, concat2("created ", shown));
        } else {
            push_error(checks, id, concat2("cannot create ", shown));
        }
        return;
    }
    match probe_error {
        None => push_ok(checks, id, concat2(shown, " writable")),
        Some(e) => push_error(checks, id, concat3(shown, " not writable: ", e.as_str())),
    }
}

/// What the daemon read for one directory that must be writable: whether
/// it existed, whether creating it worked, and the error of the write
/// probe in it (when it existed).
#[derive(Debug, Clone)]
pub struct WritableProbe {
    pub shown: String,
    pub existed: bool,
    pub created: bool,
    pub probe_error: Option<String>,
}

/// What reading the config file gave: it parsed, it did not (the parse
/// error's text), or it could not be read (the read error's text).
#[derive(Debug, Clone)]
pub enum ConfigProbe {
    Parsed,
    Invalid(String),
    Missing(String),
}

/// Everything the readiness checks read from disk and configuration.
#[derive(Debug)]
pub struct ReadinessProbes {
    pub home_shown: String,
    pub home_is_dir: bool,
    pub config_path: String,
    pub config: ConfigProbe,
    pub sessions: WritableProbe,
    pub socket_dir: Option<WritableProbe>,
    /// The number of integration manifests, or the load error's text.
    pub integrations: Result<usize, String>,
    pub llm_configured: bool,
    pub allowlist_path: String,
    pub allowlist_present: bool,
    pub audit_path: String,
    pub audit_present: bool,
}

/// A check as its id, level and message.
pub open spec fn check_view(c: ReadinessCheck) -> (Seq<char>, CheckLevel, Seq<char>) {
    (c.id@, c.level, c.message@)
}

/// The check of a directory that must be writable.
pub open spec fn writable_check(id: Seq<char>, w: WritableProbe) -> (Seq<char>, CheckLevel, Seq<char>) {
    if !w.existed {
        if w.created {
            (id, CheckLevel::Pass, "created "@ + w.shown@)
        } else {
            (id, CheckLevel::Error, "cannot create "@ + w.shown@)
        }
    } else {
        match w.probe_error {
            None => (id, CheckLevel::Pass, w.shown@ + " writable"@),
            Some(e) => (id, CheckLevel::Error, w.shown@ + " not writable: "@ + e@),
        }
    }
}

/// The checks, in order: the rmng home (required), the config file, the
/// sessions directory, the socket's directory (when the socket has one),
/// the integration manifests, the LLM provider, the MCP allowlist and the
/// audit log.
pub open spec fn spec_checks(p: ReadinessProbes) -> Seq<(Seq<char>, CheckLevel, Seq<char>)> {
    seq![
        if p.home_is_dir {
            ("rmng_home"@, CheckLevel::Pass, p.home_shown@)
        } else {
            ("rmng_home"@, CheckLevel::Error, "missing directory "@ + p.home_shown@)
        },
        match p.config {
            ConfigProbe::Parsed => ("config"@, CheckLevel::Pass, p.config_path@ + " parses OK"@),
            ConfigProbe::Invalid(e) => ("config"@, CheckLevel::Error, p.config_path@ + " invalid: "@ + e@),
            ConfigProbe::Missing(e) => ("config"@, CheckLevel::Warn, p.config_path@ + " missing ("@ + e@ + "); using defaults"@),
        },
        writable_check("sessions_dir"@, p.sessions),
    ] + match p.socket_dir {
        Some(w) => seq![writable_check("socket_dir"@, w)],
        None => Seq::empty(),
    } + seq![
        match p.integrations {
            Ok(n) => ("integrations"@, CheckLevel::Pass, decimal(n as nat) + " integration manifest(s)"@),
            Err(e) => ("integrations"@, CheckLevel::Warn, "load failed: "@ + e@),
        },
        if p.llm_configured {
            ("llm"@, CheckLevel::Pass, "provider configured"@)
        } else {
            ("llm"@, CheckLevel::Warn, "llm_provider=none — nervous routing uses mock/plan-only until configured"@)
        },
        if p.allowlist_present {
            ("mcp_allowlist"@, CheckLevel::Pass, p.allowlist_path@)
        } else {
            ("mcp_allowlist"@, CheckLevel::Warn, "missing "@ + p.allowlist_path@ + " — run scripts/setup-mcp-allowlist.sh"@)
        },
        if p.audit_present {
            ("audit"@, CheckLevel::Pass, p.audit_path@ + " present"@)
        } else {
            ("audit"@, CheckLevel::Pass, p.audit_path@ + " will be created on first dispatch"@)
        },
    ]
}

fn check(id: &str, level: CheckLevel, message: String) -> (r: ReadinessCheck)
    ensures
        check_view(r) == (id@, level, message@),
{
    ReadinessCheck { id: owned(id), level, message }
}

fn writable_of(id: &str, w: &WritableProbe) -> (r: ReadinessCheck)
    ensures
        check_view(r) == writable_check(id@, *w),
{
    if !w.existed {
        if w.created {
            check(id, CheckLevel::Pass, concat2("created ", w.shown.as_str()))
        } else {
            check(id, CheckLevel::Error, concat2("cannot create ", w.shown.as_str()))
        }
    } else {
        match &w.probe_error {
            None => check(id, CheckLevel::Pass, concat2(w.shown.as_str(), " writable")),
            Some(e) => check(id, CheckLevel::Error, concat3(w.shown.as_str(), " not writable: ", e.as_str())),
        }
    }
}

/// The readiness report from what was read: its checks are `spec_checks`
/// and it is ready when none of them is an error.
pub fn readiness_from_probes(p: &ReadinessProbes) -> (r: ReadinessReport)
    ensures
        r.checks@.map_values(|c: ReadinessCheck| check_view(c)) == spec_checks(*p),
        r.ok == no_error(r.checks@),
{
    let mut checks: Vec<ReadinessCheck> = Vec::new();
    let c0 = if p.home_is_dir {
        check("rmng_home", CheckLevel::Pass, owned(p.home_shown.as_str()))
    } else {
        check("rmng_home", CheckLevel::Error, concat2("missing directory ", p.home_shown.as_str()))
    };
    checks.push(c0);
    let c1 = match &p.config {
        ConfigProbe::Parsed => check("config", CheckLevel::Pass, concat2(p.config_path.as_str(), " parses OK")),
        ConfigProbe::Invalid(e) => check("config", CheckLevel::Error, concat3(p.config_path.as_str(), " invalid: ", e.as_str())),
        ConfigProbe::Missing(e) => {
            let a = concat3(p.config_path.as_str(), " missing (", e.as_str());
            check("config", CheckLevel::Warn, concat2(a.as_str(), "); using defaults"))
        },
    };
    checks.push(c1);
    checks.push(writable_of("sessions_dir", &p.sessions));
    let ghost head = checks@;
    match &p.socket_dir {
        Some(w) => checks.push(writable_of("socket_dir", w)),
        None => {},
    }
    let ghost mid = checks@;
    let c4 = match &p.integrations {
        Ok(n) => {
            let d = decimal_string(*n as u64);
            check("integrations", CheckLevel::Pass, concat2(d.as_str(), " integration manifest(s)"))
        },
        Err(e) => check("integrations", CheckLevel::Warn, concat2("load failed: ", e.as_str())),
    };
    checks.push(c4);
    let c5 = if p.llm_configured {
        check("llm", CheckLevel::Pass, owned("provider configured"))
    } else {
        check("llm", CheckLevel::Warn, owned("llm_provider=none — nervous routing uses mock/plan-only until configured"))
    };
    checks.push(c5);
    let c6 = if p.allowlist_present {
        check("mcp_allowlist", CheckLevel::Pass, owned(p.allowlist_path.as_str()))
    } else {
        check("mcp_allowlist", CheckLevel::Warn, concat3("missing ", p.allowlist_path.as_str(), " — run scripts/setup-mcp-allowlist.sh"))
    };
    checks.push(c6);
    let c7 = if p.audit_present {
        check("audit", CheckLevel::Pass, concat2(p.audit_path.as_str(), " present"))
    } else {
        check("audit", CheckLevel::Pass, concat2(p.audit_path.as_str(), " will be created on first dispatch"))
    };
    checks.push(c7);
    proof {
        let f = |c: ReadinessCheck| check_view(c);
        let want = spec_checks(*p);
        assert(checks@.len() == want.len());
        assert forall|k: int| 0 <= k < want.len() implies #[trigger] checks@.map_values(f)[k] == want[k] by {
            if p.socket_dir is Some {
                assert(checks@[k] == if k < 3 { head[k] } else if k < 4 { mid[k] } else { checks@[k] });
            }
        }
        assert(checks@.map_values(f) =~= want);
    }
    ReadinessReport::from_checks(checks)
}

/// A config file that was read but does not parse makes the config check
/// an error, so the report is not ready.
pub proof fn law_invalid_config_is_not_ready(p: ReadinessProbes, r: ReadinessReport)
    requires
        r.checks@.map_values(|c: ReadinessCheck| check_view(c)) == spec_checks(p),
        r.ok == no_error(r.checks@),
        p.config is Invalid,
    ensures
        r.checks@[1].id@ == "config"@,
        r.checks@[1].level == CheckLevel::Error,
        !r.ok,
{
    assert(r.checks@.map_values(|c: ReadinessCheck| check_view(c))[1] == spec_checks(p)[1]);
    assert(r.checks@.len() == spec_checks(p).len());
}

/// A directory that must be writable is fine when it existed and the write
/// probe worked, or when it was missing and could be created.
pub open spec fn writable_ok(w: WritableProbe) -> bool {
    if w.existed { w.probe_error is None } else { w.created }
}

/// The report is ready exactly when the rmng home is a directory, the
/// config file did not fail to parse, and the sessions directory (and the
/// socket's directory, when there is one) is writable; a missing config,
/// failed manifest loading, no LLM provider, a missing allowlist or audit
/// log only warn.
pub proof fn law_ready_iff(p: ReadinessProbes, r: ReadinessReport)
    requires
        r.checks@.map_values(|c: ReadinessCheck| check_view(c)) == spec_checks(p),
        r.ok == no_error(r.checks@),
    ensures
        r.ok <==> {
            &&& p.home_is_dir
            &&& !(p.config is Invalid)
            &&& writable_ok(p.sessions)
            &&& (p.socket_dir matches Some(w) ==> writable_ok(w))
        },
{
    let v = r.checks@.map_values(|c: ReadinessCheck| check_view(c));
    let want = spec_checks(p);
    assert(r.checks@.len() == want.len());
    assert forall|i: int| 0 <= i < r.checks@.len() implies (#[trigger] r.checks@[i]).level == want[i].1 by {
        assert(v[i] == want[i]);
    }
    let good = p.home_is_dir && !(p.config is Invalid) && writable_ok(p.sessions)
        && (p.socket_dir matches Some(w) ==> writable_ok(w));
    if good {
        assert forall|i: int| 0 <= i < r.checks@.len() implies (#[trigger] r.checks@[i]).level != CheckLevel::Error by {
            assert(r.checks@[i].level == want[i].1);
        }
    } else {
        if !p.home_is_dir {
            assert(r.checks@[0].level == want[0].1);
        } else if p.config is Invalid {
            assert(r.checks@[1].level == want[1].1);
        } else if !writable_ok(p.sessions) {
            assert(r.checks@[2].level == want[2].1);
        } else {
            assert(r.checks@[3].level == want[3].1);
        }
    }
}

} // verus!
