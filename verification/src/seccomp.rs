//! Seccomp profile names for high-risk MCP subprocesses and the filter
//! programs (seccompiler JSON) that each profile stands for.

use vstd::prelude::*;
use crate::text::{concat2, lower, owned, str_equal, trim, trimmed_lower_eq};

verus! {

pub const PROFILE_BASIC: &'static str = "basic";

pub const PROFILE_PLAYWRIGHT: &'static str = "playwright";

pub const PROFILE_E2B: &'static str = "e2b";

/// Blocklist filter: default allow, deny kernel-administration syscalls.
pub const FILTER_BASIC: &'static str = r#"{
  "default": {
  "mismatch_action": "allow",
  "match_action": {"errno": 1},
  "filter": [
    {"syscall": "mount"}, {"syscall": "umount2"}, {"syscall": "pivot_root"},
    {"syscall": "chroot"}, {"syscall": "kexec_load"}, {"syscall": "kexec_file_load"},
    {"syscall": "init_module"}, {"syscall": "finit_module"}, {"syscall": "delete_module"},
    {"syscall": "reboot"}, {"syscall": "swapon"}, {"syscall": "swapoff"},
    {"syscall": "bpf"}, {"syscall": "userfaultfd"}, {"syscall": "perf_event_open"},
    {"syscall": "sethostname"}, {"syscall": "setdomainname"},
    {"syscall": "settimeofday"}, {"syscall": "clock_settime"}, {"syscall": "adjtimex"},
    {"syscall": "acct"}, {"syscall": "iopl"}, {"syscall": "ioperm"}, {"syscall": "quotactl"},
    {"syscall": "setns"}, {"syscall": "unshare"}, {"syscall": "keyctl"},
    {"syscall": "add_key"}, {"syscall": "request_key"}
  ]
  }
}"#;

/// Browser automation needs namespaces and key management, so fewer syscalls are denied.
pub const FILTER_PLAYWRIGHT: &'static str = r#"{
  "default": {
  "mismatch_action": "allow",
  "match_action": {"errno": 1},
  "filter": [
    {"syscall": "mount"}, {"syscall": "umount2"}, {"syscall": "pivot_root"},
    {"syscall": "chroot"}, {"syscall": "kexec_load"}, {"syscall": "kexec_file_load"},
    {"syscall": "init_module"}, {"syscall": "finit_module"}, {"syscall": "delete_module"},
    {"syscall": "reboot"}, {"syscall": "bpf"}, {"syscall": "iopl"}, {"syscall": "ioperm"},
    {"syscall": "swapon"}, {"syscall": "swapoff"}
  ]
  }
}"#;

/// Servers whose subprocesses get a seccomp profile by default.
pub open spec fn spec_is_high_risk(server: Seq<char>) -> bool {
    server == "playwright"@ || server == "e2b"@
}

/// The canonical profile that a configured name stands for: the name is
/// trimmed and lowercased; `basic`, `playwright` and `e2b` are known, all
/// other names (`off`, `none`, `false`, the empty name, unknown names) mean
/// no profile.
pub open spec fn spec_normalize_profile(name: Seq<char>) -> Option<Seq<char>> {
    let w = lower(trim(name));
    if w == PROFILE_BASIC@ {
        Some(PROFILE_BASIC@)
    } else if w == PROFILE_PLAYWRIGHT@ {
        Some(PROFILE_PLAYWRIGHT@)
    } else if w == PROFILE_E2B@ {
        Some(PROFILE_E2B@)
    } else {
        None
    }
}

/// A configured name that turns seccomp off on purpose: `off`, `none`,
/// `false` or the empty name (trimmed and lowercased).
pub open spec fn spec_profile_disabled(name: Seq<char>) -> bool {
    let w = lower(trim(name));
    w == ""@ || w == "off"@ || w == "none"@ || w == "false"@
}

pub fn profile_disabled(name: &str) -> (r: bool)
    ensures
        r == spec_profile_disabled(name@),
{
    trimmed_lower_eq(name, "") || trimmed_lower_eq(name, "off") || trimmed_lower_eq(name, "none")
        || trimmed_lower_eq(name, "false")
}

/// The character view of an optional string slice.
pub open spec fn opt_str_view(o: Option<&str>) -> Option<Seq<char>> {
    match o {
        Some(s) => Some(s@),
        None => None,
    }
}

pub fn is_high_risk_mcp_server(server: &str) -> (r: bool)
    ensures
        r == spec_is_high_risk(server@),
{
    str_equal(server, "playwright") || str_equal(server, "e2b")
}

pub fn normalize_profile(name: &str) -> (r: Option<&'static str>)
    ensures
        opt_str_view(r) == spec_normalize_profile(name@),
{
    if trimmed_lower_eq(name, PROFILE_BASIC) {
        Some(PROFILE_BASIC)
    } else if trimmed_lower_eq(name, PROFILE_PLAYWRIGHT) {
        Some(PROFILE_PLAYWRIGHT)
    } else if trimmed_lower_eq(name, PROFILE_E2B) {
        Some(PROFILE_E2B)
    } else {
        None
    }
}

/// The seccompiler JSON for a canonical profile; `e2b` uses the basic filter.
pub open spec fn spec_filter_json(profile: Seq<char>) -> Option<Seq<char>> {
    if profile == PROFILE_BASIC@ {
        Some(FILTER_BASIC@)
    } else if profile == PROFILE_PLAYWRIGHT@ {
        Some(FILTER_PLAYWRIGHT@)
    } else if profile == PROFILE_E2B@ {
        Some(FILTER_BASIC@)
    } else {
        None
    }
}

pub fn filter_json(profile: &str) -> (r: Option<&'static str>)
    ensures
        opt_str_view(r) == spec_filter_json(profile@),
{
    if str_equal(profile, PROFILE_BASIC) {
        Some(FILTER_BASIC)
    } else if str_equal(profile, PROFILE_PLAYWRIGHT) {
        Some(FILTER_PLAYWRIGHT)
    } else if str_equal(profile, PROFILE_E2B) {
        Some(FILTER_BASIC)
    } else {
        None
    }
}

/// One instruction of a classic BPF program (seccompiler's `sock_filter`).
#[derive(Debug, Clone, Copy, PartialEq, Eq)]
pub struct BpfInstr {
    pub code: u16,
    pub jt: u8,
    pub jf: u8,
    pub k: u32,
}

/// What seccompiler gives for the filter `name` of a seccompiler JSON text
/// on an architecture: the filter's program (none when the text has no
/// filter of that name), or the failure: `None` for an architecture that
/// `TargetArch` does not know, else the compile error's text.
pub uninterp spec fn compiled_filter(json: Seq<char>, arch: Seq<char>, name: Seq<char>) -> Result<Option<Seq<BpfInstr>>, Option<Seq<char>>>;

/// The plain view of what `compile_filter` returns.
pub open spec fn compile_view(r: Result<Option<Vec<BpfInstr>>, Option<String>>) -> Result<Option<Seq<BpfInstr>>, Option<Seq<char>>> {
    match r {
        Ok(Some(p)) => Ok(Some(p@)),
        Ok(None) => Ok(None),
        Err(Some(e)) => Err(Some(e@)),
        Err(None) => Err(None),
    }
}

/// `TargetArch::try_from(arch)`, then `seccompiler::compile_from_json` of
/// the text and `remove(name)` on the map it gives, each instruction taken
/// field by field. The texts it is called with hold one filter, so what it
/// gives depends on the text, the architecture and the name alone.
#[verifier::external_body]
fn compile_filter(json: &str, arch: &str, name: &str) -> (r: Result<Option<Vec<BpfInstr>>, Option<String>>)
    requires
        json@ == FILTER_BASIC@ || json@ == FILTER_PLAYWRIGHT@,
    ensures
        compile_view(r) == compiled_filter(json@, arch@, name@),
{
    let a = match seccompiler::TargetArch::try_from(arch) {
        Ok(a) => a,
        Err(_) => return Err(None),
    };
    let mut map = match seccompiler::compile_from_json(json.as_bytes(), a) {
        Ok(m) => m,
        Err(e) => return Err(Some(e.to_string())),
    };
    Ok(map.remove(name).map(|p| p.into_iter().map(|f| BpfInstr { code: f.code, jt: f.jt, jf: f.jf, k: f.k }).collect()))
}

/// The program a canonical profile installs on an architecture: an unknown
/// profile, an unknown architecture, a compile error or a text without a
/// `default` filter is an error with its message; otherwise the compiled
/// `default` filter of the profile's JSON.
pub open spec fn spec_seccomp_program(profile: Seq<char>, arch: Seq<char>) -> Result<Seq<BpfInstr>, Seq<char>> {
    match spec_filter_json(profile) {
        None => Err("unknown seccomp profile: "@ + profile),
        Some(json) => match compiled_filter(json, arch, "default"@) {
            Err(None) => Err("unsupported arch for seccomp: "@ + arch),
            Err(Some(e)) => Err("compile seccomp: "@ + e),
            Ok(None) => Err("missing default seccomp filter"@),
            Ok(Some(p)) => Ok(p),
        },
    }
}

pub fn seccomp_program(profile: &str, arch: &str) -> (r: Result<Vec<BpfInstr>, String>)
    ensures
        match spec_seccomp_program(profile@, arch@) {
            Ok(p) => r matches Ok(v) && v@ == p,
            Err(m) => r matches Err(e) && e@ == m,
        },
{
    let json = match filter_json(profile) {
        Some(j) => j,
        None => return Err(concat2("unknown seccomp profile: ", profile)),
    };
    match compile_filter(json, arch, "default") {
        Err(None) => Err(concat2("unsupported arch for seccomp: ", arch)),
        Err(Some(e)) => Err(concat2("compile seccomp: ", e.as_str())),
        Ok(None) => Err(owned("missing default seccomp filter")),
        Ok(Some(p)) => Ok(p),
    }
}

/// Normalizing a canonical profile name gives the name back, so the
/// normalization is idempotent on everything it returns.
pub proof fn law_normalize_profile_idempotent(name: Seq<char>)
    requires
        spec_normalize_profile(name) is Some,
    ensures
        spec_normalize_profile(spec_normalize_profile(name)->0) == spec_normalize_profile(name),
{
    reveal_strlit("basic");
    reveal_strlit("playwright");
    reveal_strlit("e2b");
    let p = spec_normalize_profile(name)->0;
    assert(trim(p) == p);
    assert(lower(p) =~= p);
}

} // verus!
