//! Native tools with registered handlers, and the checks on their inputs.

use vstd::prelude::*;
use crate::error::RmngError;
use crate::json::{bool_member, json_model, str_member};
use crate::paths::{join, spec_join};
use crate::seccomp::opt_str_view;
use crate::text::{concat2, concat4, contains_char, contains_pair, has_pair, owned, str_equal};

verus! {

/// The native tools that have a handler in this runtime.
#[derive(Debug, Clone, Copy, PartialEq, Eq, Structural)]
pub enum NativeTool {
    KernelStatus,
    KernelBuild,
    KernelApplyPatches,
    GitStatus,
    GitDiff,
    GithubPrStatus,
}

/// Tool names in registration order.
pub open spec fn registered_names() -> Seq<Seq<char>> {
    seq![
        "kernel.status"@,
        "kernel.build"@,
        "kernel.apply_patches"@,
        "git.status"@,
        "git.diff"@,
        "github.pr_status"@,
    ]
}

/// The tool a name stands for.
pub open spec fn spec_native_tool(name: Seq<char>) -> Option<NativeTool> {
    if name == "kernel.status"@ {
        Some(NativeTool::KernelStatus)
    } else if name == "kernel.build"@ {
        Some(NativeTool::KernelBuild)
    } else if name == "kernel.apply_patches"@ {
        Some(NativeTool::KernelApplyPatches)
    } else if name == "git.status"@ {
        Some(NativeTool::GitStatus)
    } else if name == "git.diff"@ {
        Some(NativeTool::GitDiff)
    } else if name == "github.pr_status"@ {
        Some(NativeTool::GithubPrStatus)
    } else {
        None
    }
}

/// Tools with Rust handlers registered in this module.
pub fn registered_tools() -> (r: Vec<&'static str>)
    ensures
        r@.map_values(|s: &str| s@) == registered_names(),
{
    let r = vec![
        "kernel.status",
        "kernel.build",
        "kernel.apply_patches",
        "git.status",
        "git.diff",
        "github.pr_status",
    ];
    assert(r@.map_values(|s: &str| s@) =~= registered_names());
    r
}

/// The handler that dispatch selects for a tool name.
pub fn native_tool(name: &str) -> (r: Option<NativeTool>)
    ensures
        r == spec_native_tool(name@),
{
    if str_equal(name, "kernel.status") {
        Some(NativeTool::KernelStatus)
    } else if str_equal(name, "kernel.build") {
        Some(NativeTool::KernelBuild)
    } else if str_equal(name, "kernel.apply_patches") {
        Some(NativeTool::KernelApplyPatches)
    } else if str_equal(name, "git.status") {
        Some(NativeTool::GitStatus)
    } else if str_equal(name, "git.diff") {
        Some(NativeTool::GitDiff)
    } else if str_equal(name, "github.pr_status") {
        Some(NativeTool::GithubPrStatus)
    } else {
        None
    }
}

/// Dispatch finds a handler exactly for the registered tool names.
pub proof fn law_dispatch_covers_registered(name: Seq<char>)
    ensures
        spec_native_tool(name) is Some <==> registered_names().contains(name),
{
    if registered_names().contains(name) {
        let i = choose|i: int| 0 <= i < registered_names().len() && registered_names()[i] == name;
        assert(0 <= i < 6);
    }
    if spec_native_tool(name) is Some {
        if name == "kernel.status"@ {
            assert(registered_names()[0] == name);
        } else if name == "kernel.build"@ {
            assert(registered_names()[1] == name);
        } else if name == "kernel.apply_patches"@ {
            assert(registered_names()[2] == name);
        } else if name == "git.status"@ {
            assert(registered_names()[3] == name);
        } else if name == "git.diff"@ {
            assert(registered_names()[4] == name);
        } else {
            assert(registered_names()[5] == name);
        }
    }
}

/// The shell metacharacters a repository path may not hold: `;`, `|`,
/// `&`, `$`, backtick, `<`, `>`, `(`, `)` and newline.
pub open spec fn has_shell_meta(path: Seq<char>) -> bool {
    path.contains(';') || path.contains('|') || path.contains('&') || path.contains('$')
        || path.contains('`') || path.contains('<') || path.contains('>') || path.contains('(')
        || path.contains(')') || path.contains('\n')
}

fn contains_shell_meta(path: &str) -> (r: bool)
    ensures
        r == has_shell_meta(path@),
{
    contains_char(path, ';') || contains_char(path, '|') || contains_char(path, '&')
        || contains_char(path, '$') || contains_char(path, '`') || contains_char(path, '<')
        || contains_char(path, '>') || contains_char(path, '(') || contains_char(path, ')')
        || contains_char(path, '\n')
}

/// How a repository path is judged: it must be non-empty, hold no `..` and
/// no shell metacharacter, and be absolute.
pub open spec fn repo_path_error(path: Seq<char>) -> Option<Seq<char>> {
    if path.len() == 0 {
        Some("empty path"@)
    } else if has_pair(path, '.', '.') || has_shell_meta(path) {
        Some("unsafe path: "@ + path)
    } else if path[0] != '/' {
        Some("path must be absolute"@)
    } else {
        None
    }
}

/// Validates a user-supplied repository path (no shell metacharacters, no traversal).
pub fn validate_repo_path(path: &str) -> (r: Result<String, RmngError>)
    ensures
        repo_path_error(path@) is None ==> (r matches Ok(p) && p@ == path@),
        repo_path_error(path@) matches Some(m) ==> (r matches Err(RmngError::InvalidIntent(got)) && got@ == m),
{
    let n = path.unicode_len();
    if n == 0 {
        return Err(RmngError::InvalidIntent(owned("empty path")));
    }
    if contains_pair(path, '.', '.') || contains_shell_meta(path) {
        return Err(RmngError::InvalidIntent(concat2("unsafe path: ", path)));
    }
    if path.get_char(0) != '/' {
        return Err(RmngError::InvalidIntent(owned("path must be absolute")));
    }
    Ok(owned(path))
}

/// Arguments of `git diff` for the diff tool: the staged form adds `--cached`.
pub fn git_diff_args(staged: bool) -> (r: Vec<&'static str>)
    ensures
        staged ==> r@.map_values(|s: &str| s@) == seq!["diff"@, "--stat"@, "--cached"@],
        !staged ==> r@.map_values(|s: &str| s@) == seq!["diff"@, "--stat"@],
{
    if staged {
        let r = vec!["diff", "--stat", "--cached"];
        assert(r@.map_values(|s: &str| s@) =~= seq!["diff"@, "--stat"@, "--cached"@]);
        r
    } else {
        let r = vec!["diff", "--stat"];
        assert(r@.map_values(|s: &str| s@) =~= seq!["diff"@, "--stat"@]);
        r
    }
}

/// What a native tool runs.
#[derive(Debug, Clone, PartialEq, Eq)]
pub enum ToolCommand {
    /// `bash <script> <args>`; it fails when the script does not exist.
    Script { script: String, args: Vec<String> },
    /// `<program> <args>` run directly (never through a shell) in `repo`;
    /// it fails unless `repo/.git` exists.
    InRepo { program: String, args: Vec<String>, repo: String },
}

/// The repository a tool works in: the `path` parameter when given (it
/// must pass `validate_repo_path`), else the project root.
pub open spec fn repo_for(path: Option<Seq<char>>, root: Seq<char>) -> Result<Seq<char>, Seq<char>> {
    match path {
        Some(p) => match repo_path_error(p) {
            Some(m) => Err(m),
            None => Ok(p),
        },
        None => Ok(root),
    }
}

pub open spec fn arg_views(v: Seq<String>) -> Seq<Seq<char>> {
    v.map_values(|s: String| s@)
}

/// The command of each tool, given the `path`, `target` and `staged`
/// parameters it was called with, the project root and the status script.
pub open spec fn spec_tool_command(
    tool: NativeTool,
    path: Option<Seq<char>>,
    target: Option<Seq<char>>,
    staged: Option<bool>,
    root: Seq<char>,
    status_script: Seq<char>,
    c: ToolCommand,
) -> bool {
    match tool {
        NativeTool::KernelStatus => c matches ToolCommand::Script { script, args } && script@ == status_script && args@.len() == 0,
        NativeTool::KernelBuild => c matches ToolCommand::Script { script, args } && script@ == spec_join(root, "scripts/build.sh"@)
            && arg_views(args@) == seq![match target { Some(t) => t, None => "all"@ }],
        NativeTool::KernelApplyPatches => c matches ToolCommand::Script { script, args }
            && script@ == spec_join(root, "scripts/rebuild-with-patches.sh"@) && args@.len() == 0,
        NativeTool::GitStatus => c matches ToolCommand::InRepo { program, args, repo } && program@ == "git"@
            && arg_views(args@) == seq!["status"@, "--porcelain"@, "-b"@] && repo_for(path, root) == Ok::<Seq<char>, Seq<char>>(repo@),
        NativeTool::GitDiff => c matches ToolCommand::InRepo { program, args, repo } && program@ == "git"@
            && arg_views(args@) == (if staged == Some(true) { seq!["diff"@, "--stat"@, "--cached"@] } else { seq!["diff"@, "--stat"@] })
            && repo_for(path, root) == Ok::<Seq<char>, Seq<char>>(repo@),
        NativeTool::GithubPrStatus => c matches ToolCommand::InRepo { program, args, repo } && program@ == "gh"@
            && arg_views(args@) == seq!["pr"@, "status"@, "--json"@, "title,state,url,number"@]
            && repo@ == match repo_for(path, root) { Ok(r) => r, Err(_) => root },
    }
}

fn strings_of(v: Vec<&str>) -> (r: Vec<String>)
    ensures
        arg_views(r@) == v@.map_values(|s: &str| s@),
{
    let mut r: Vec<String> = Vec::new();
    let mut i: usize = 0;
    while i < v.len()
        invariant
            i <= v.len(),
            arg_views(r@) == v@.subrange(0, i as int).map_values(|s: &str| s@),
        decreases v.len() - i,
    {
        let ghost before = r@;
        r.push(owned(v[i]));
        proof {
            assert(arg_views(r@) =~= arg_views(before).push(v@[i as int]@));
            assert(v@.subrange(0, i + 1) =~= v@.subrange(0, i as int).push(v@[i as int]));
        }
        i = i + 1;
        proof {
            assert(arg_views(r@) =~= v@.subrange(0, i as int).map_values(|s: &str| s@));
        }
    }
    proof {
        assert(v@.subrange(0, i as int) =~= v@);
    }
    r
}

/// The command of a native tool, given the `path`, `target` and `staged`
/// parameters it was called with (`None` when absent or not a string or a
/// boolean), the project root (the default repository) and the status
/// script. A bad `path` fails `git.status` and `git.diff`; `github.pr_status`
/// falls back to the project root.
pub fn tool_command(
    tool: NativeTool,
    path: Option<&str>,
    target: Option<&str>,
    staged: Option<bool>,
    project_root: &str,
    status_script: &str,
) -> (r: Result<ToolCommand, RmngError>)
    ensures
        match (tool, repo_for(opt_str_view(path), project_root@)) {
            (NativeTool::GitStatus, Err(m)) => r matches Err(RmngError::InvalidIntent(x)) && x@ == m,
            (NativeTool::GitDiff, Err(m)) => r matches Err(RmngError::InvalidIntent(x)) && x@ == m,
            _ => r matches Ok(c) && spec_tool_command(tool, opt_str_view(path), opt_str_view(target), staged, project_root@, status_script@, c),
        },
{
    proof {
        reveal_strlit("all");
    }
    match tool {
        NativeTool::KernelStatus => Ok(ToolCommand::Script { script: owned(status_script), args: Vec::new() }),
        NativeTool::KernelBuild => {
            let t = match target {
                Some(t) => t,
                None => "all",
            };
            let args = vec![owned(t)];
            assert(arg_views(args@) =~= seq![t@]);
            Ok(ToolCommand::Script { script: join(project_root, "scripts/build.sh"), args })
        },
        NativeTool::KernelApplyPatches => Ok(ToolCommand::Script {
            script: join(project_root, "scripts/rebuild-with-patches.sh"),
            args: Vec::new(),
        }),
        NativeTool::GitStatus | NativeTool::GitDiff => {
            let repo = match path {
                Some(p) => match validate_repo_path(p) {
                    Ok(x) => x,
                    Err(e) => return Err(e),
                },
                None => owned(project_root),
            };
            let args = match tool {
                NativeTool::GitStatus => strings_of(vec!["status", "--porcelain", "-b"]),
                _ => {
                    let staged_flag = match staged {
                        Some(b) => b,
                        None => false,
                    };
                    strings_of(git_diff_args(staged_flag))
                },
            };
            proof {
                assert(seq!["status", "--porcelain", "-b"].map_values(|s: &str| s@) =~= seq!["status"@, "--porcelain"@, "-b"@]);
            }
            Ok(ToolCommand::InRepo { program: owned("git"), args, repo })
        },
        NativeTool::GithubPrStatus => {
            let repo = match path {
                Some(p) => match validate_repo_path(p) {
                    Ok(x) => x,
                    Err(_) => owned(project_root),
                },
                None => owned(project_root),
            };
            let args = strings_of(vec!["pr", "status", "--json", "title,state,url,number"]);
            proof {
                assert(seq!["pr", "status", "--json", "title,state,url,number"].map_values(|s: &str| s@)
                    =~= seq!["pr"@, "status"@, "--json"@, "title,state,url,number"@]);
            }
            Ok(ToolCommand::InRepo { program: owned("gh"), args, repo })
        },
    }
}

/// The error text for a tool name with no handler.
pub open spec fn no_handler_message(name: Seq<char>) -> Seq<char> {
    "no handler registered for tool: "@ + name
}

/// The command that dispatching a tool call runs: the tool's handler
/// applied to the `path`, `target` and `staged` members of its parameters.
pub fn plan_tool_call(name: &str, parameters: &serde_json::Value, project_root: &str, status_script: &str) -> (r: Result<ToolCommand, RmngError>)
    ensures
        spec_native_tool(name@) is None ==> (r matches Err(RmngError::ToolFailed(m)) && m@ == no_handler_message(name@)),
        spec_native_tool(name@) is Some ==> !(r matches Err(RmngError::ToolFailed(_))),
        spec_native_tool(name@) matches Some(tool) ==> match (tool, repo_for(str_member(json_model(*parameters), "path"@), project_root@)) {
            (NativeTool::GitStatus, Err(m)) => r matches Err(RmngError::InvalidIntent(x)) && x@ == m,
            (NativeTool::GitDiff, Err(m)) => r matches Err(RmngError::InvalidIntent(x)) && x@ == m,
            _ => r matches Ok(c) && spec_tool_command(tool, str_member(json_model(*parameters), "path"@),
                str_member(json_model(*parameters), "target"@), bool_member(json_model(*parameters), "staged"@),
                project_root@, status_script@, c),
        },
{
    let tool = match native_tool(name) {
        Some(t) => t,
        None => return Err(RmngError::ToolFailed(concat2("no handler registered for tool: ", name))),
    };
    let path = match crate::json::json_field(parameters, "path") {
        Some(v) => crate::json::json_as_str(&v),
        None => None,
    };
    let target = match crate::json::json_field(parameters, "target") {
        Some(v) => crate::json::json_as_str(&v),
        None => None,
    };
    let staged = match crate::json::json_field(parameters, "staged") {
        Some(v) => crate::json::json_as_bool(&v),
        None => None,
    };
    let p = match &path {
        Some(x) => Some(x.as_str()),
        None => None,
    };
    let t = match &target {
        Some(x) => Some(x.as_str()),
        None => None,
    };
    tool_command(tool, p, t, staged, project_root, status_script)
}

/// The error when a tool's script is missing.
pub fn script_missing_error(script: &str) -> (r: RmngError)
    ensures
        r matches RmngError::ToolFailed(m) && m@ == "script not found: "@ + script@,
{
    RmngError::ToolFailed(concat2("script not found: ", script))
}

/// The error when a tool's repository is not a git repository.
pub fn not_a_repository_error(repo: &str) -> (r: RmngError)
    ensures
        r matches RmngError::ToolFailed(m) && m@ == "not a git repository: "@ + repo@,
{
    RmngError::ToolFailed(concat2("not a git repository: ", repo))
}

/// The error when a program's working directory is missing.
pub fn workdir_missing_error(dir: &str) -> (r: RmngError)
    ensures
        r matches RmngError::ToolFailed(m) && m@ == "working directory not found: "@ + dir@,
{
    RmngError::ToolFailed(concat2("working directory not found: ", dir))
}

/// The error when a program could not be started.
pub fn spawn_error(program: &str, cause: &str) -> (r: RmngError)
    ensures
        r matches RmngError::ToolFailed(m) && m@ == "failed to spawn "@ + program@ + ": "@ + cause@,
{
    RmngError::ToolFailed(concat4("failed to spawn ", program, ": ", cause))
}

/// A tool runs in the project root or in a path that passed validation: a
/// user-supplied repository never holds `..` or a shell metacharacter, and
/// is absolute.
pub proof fn law_repositories_are_validated(
    tool: NativeTool,
    path: Option<Seq<char>>,
    target: Option<Seq<char>>,
    staged: Option<bool>,
    root: Seq<char>,
    status_script: Seq<char>,
    c: ToolCommand,
)
    requires
        spec_tool_command(tool, path, target, staged, root, status_script, c),
        c is InRepo,
    ensures
        c->InRepo_repo@ == root || repo_path_error(c->InRepo_repo@) is None,
{
}

/// `git.status` and `git.diff` run in the repository the call names when
/// that path passes validation, and in the project root when no path is
/// given.
pub proof fn law_git_runs_in_requested_repo(
    tool: NativeTool,
    path: Option<Seq<char>>,
    target: Option<Seq<char>>,
    staged: Option<bool>,
    root: Seq<char>,
    status_script: Seq<char>,
    c: ToolCommand,
)
    requires
        tool == NativeTool::GitStatus || tool == NativeTool::GitDiff,
        spec_tool_command(tool, path, target, staged, root, status_script, c),
    ensures
        c is InRepo,
        path matches Some(p) ==> (repo_path_error(p) is None ==> c->InRepo_repo@ == p),
        path is None ==> c->InRepo_repo@ == root,
{
}

/// `github.pr_status` runs in the requested repository when its path
/// passes validation, and in the project root otherwise.
pub proof fn law_pr_status_repo(
    path: Option<Seq<char>>,
    target: Option<Seq<char>>,
    staged: Option<bool>,
    root: Seq<char>,
    status_script: Seq<char>,
    c: ToolCommand,
)
    requires
        spec_tool_command(NativeTool::GithubPrStatus, path, target, staged, root, status_script, c),
    ensures
        c is InRepo,
        c->InRepo_repo@ == match path {
            Some(p) => if repo_path_error(p) is None { p } else { root },
            None => root,
        },
{
}

} // verus!
