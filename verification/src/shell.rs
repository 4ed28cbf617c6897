//! Shell commands: how a command is contained on each platform, and what the
//! tool gives back of its run.

use vstd::prelude::*;
use crate::fileops::prefixed;
use crate::json::{json_text, text_or};
use crate::lines::{join, join_strings, push_signed_decimal, signed_decimal, strs};
use crate::text::{chars_of, push_str, string_of};

verus! {

/// What a process left behind, its output read as text.
#[derive(Debug)]
pub struct ProcessOutput {
    pub stdout: String,
    pub stderr: String,
    /// Whether the process ended with success.
    pub success: bool,
    /// The exit code, where the process ended with one.
    pub code: Option<i32>,
}

/// The note on the exit of a process that failed.
pub open spec fn exit_note(success: bool, code: Option<i32>) -> Seq<char> {
    if success {
        Seq::empty()
    } else {
        "\n[exit code: "@ + signed_decimal(
            match code {
                Some(c) => c as int,
                None => -1,
            },
        ) + "]"@
    }
}

/// What the tool gives back of the run of a command: the command after a
/// dollar sign, what the process wrote, first to its output, then to its
/// error stream, and the exit code where the process failed.
pub open spec fn bash_text(command: Seq<char>, run: Result<ProcessOutput, String>) -> Seq<char> {
    match run {
        Err(e) => "$ "@ + command + "\nError: "@ + e@,
        Ok(p) => "$ "@ + command + "\n"@ + p.stdout@ + (if p.stderr@.len() > 0 && p.stdout@.len() > 0 {
            "\n"@
        } else {
            Seq::<char>::empty()
        }) + p.stderr@ + exit_note(p.success, p.code),
    }
}

/// Writes what the tool gives back of the run of a command.
pub fn bash_output(command: &str, run: &Result<ProcessOutput, String>) -> (out: String)
    ensures
        out@ == bash_text(command@, *run),
{
    let mut out: Vec<char> = Vec::new();
    push_str(&mut out, "$ ");
    push_str(&mut out, command);
    match run {
        Err(e) => {
            push_str(&mut out, "\nError: ");
            push_str(&mut out, e.as_str());
            assert(out@ =~= bash_text(command@, *run));
        },
        Ok(p) => {
            push_str(&mut out, "\n");
            push_str(&mut out, p.stdout.as_str());
            if !p.stderr.as_str().is_empty() {
                if !p.stdout.as_str().is_empty() {
                    push_str(&mut out, "\n");
                }
                push_str(&mut out, p.stderr.as_str());
            }
            if !p.success {
                push_str(&mut out, "\n[exit code: ");
                let code: i64 = match p.code {
                    Some(c) => c as i64,
                    None => -1,
                };
                push_signed_decimal(&mut out, code);
                push_str(&mut out, "]");
            }
            assert(out@ =~= bash_text(command@, *run));
        },
    }
    string_of(&out)
}

/// What the tool gives back for a call of `bash`, from the JSON text of its
/// arguments and the run of the command that they name.
pub fn execute_bash_with_paths(args_str: &str, run: &Result<ProcessOutput, String>) -> (out: String)
    ensures
        out@ == if text_or(json_text(args_str@, "command"@), ""@).len() == 0 {
            "Error: command is required"@
        } else {
            bash_text(text_or(json_text(args_str@, "command"@), ""@), *run)
        },
{
    let command = crate::json::text_field_or(args_str, "command", "");
    if command.as_str().is_empty() {
        "Error: command is required".to_owned()
    } else {
        bash_output(command.as_str(), run)
    }
}

/// What a command run without containment gives back.
pub open spec fn unsandboxed_text(run: Result<ProcessOutput, String>) -> Seq<char> {
    match run {
        Ok(p) => p.stdout@ + p.stderr@,
        Err(e) => "Error: "@ + e@,
    }
}

/// What a call of `bash` run without containment gives back: what the process
/// wrote, first to its output, then to its error stream.
pub fn execute_bash_unsandboxed(args_str: &str, run: &Result<ProcessOutput, String>) -> (out: String)
    ensures
        out@ == if text_or(json_text(args_str@, "command"@), ""@).len() == 0 {
            "Error: command is required"@
        } else {
            unsandboxed_text(*run)
        },
{
    let command = crate::json::text_field_or(args_str, "command", "");
    if command.as_str().is_empty() {
        return "Error: command is required".to_owned();
    }
    match run {
        Ok(p) => prefixed(p.stdout.as_str(), p.stderr.as_str()),
        Err(e) => prefixed("Error: ", e.as_str()),
    }
}

/// The platform that commands run on.
#[derive(Debug, Clone, Copy, PartialEq, Eq, Structural)]
pub enum Platform {
    MacOs,
    Linux,
    Windows,
    Other,
}

/// A program to run with its arguments, in the working directory.
#[derive(Debug)]
pub struct Invocation {
    pub program: String,
    pub args: Vec<String>,
}

/// The rule of the macOS profile that allows writes below a path.
pub open spec fn write_rule(path: Seq<char>) -> Seq<char> {
    "(allow file-write* (subpath \""@ + path + "\"))"@
}

/// The rules that allow writes below the given paths.
pub open spec fn write_rules(paths: Seq<Seq<char>>) -> Seq<Seq<char>> {
    Seq::new(paths.len(), |i: int| write_rule(paths[i]))
}

/// The macOS sandbox profile: everything is denied but processes, reads,
/// the network, and writes below the working directory, the temporary
/// directories, `/dev` and the allowed paths.
pub open spec fn macos_profile(cwd: Seq<char>, allowed: Seq<Seq<char>>) -> Seq<char> {
    "(version 1)\n(deny default)\n(allow process*)\n(allow file-read*)\n(allow file-write* (subpath \""@
        + cwd
        + "\"))\n(allow file-write* (subpath \"/tmp\"))\n(allow file-write* (subpath \"/private/tmp\"))\n(allow file-write* (subpath \"/var/folders\"))\n(allow file-write* (subpath \"/private/var/folders\"))\n(allow file-write* (subpath \"/dev\"))\n"@
        + join(write_rules(allowed), "\n"@)
        + "\n(allow sysctl-read)\n(allow mach-lookup)\n(allow signal)\n(allow network*)"@
}

/// The arguments of `bwrap` that bind the allowed paths for writing.
pub open spec fn bind_args(paths: Seq<Seq<char>>) -> Seq<Seq<char>>
    decreases paths.len(),
{
    if paths.len() == 0 {
        seq![]
    } else {
        bind_args(paths.drop_last()) + seq!["--bind"@, paths.last(), paths.last()]
    }
}

/// The arguments of `bwrap`: the system directories bound for reading, the
/// allowed paths and the working directory for writing, everything unshared
/// but the network, and the command for `bash`.
pub open spec fn bwrap_args(command: Seq<char>, cwd: Seq<char>, allowed: Seq<Seq<char>>) -> Seq<
    Seq<char>,
> {
    seq![
        "--ro-bind"@,
        "/usr"@,
        "/usr"@,
        "--ro-bind"@,
        "/bin"@,
        "/bin"@,
        "--ro-bind"@,
        "/lib"@,
        "/lib"@,
        "--ro-bind"@,
        "/lib64"@,
        "/lib64"@,
        "--ro-bind"@,
        "/etc"@,
        "/etc"@,
    ] + bind_args(allowed) + seq![
        "--bind"@,
        cwd,
        cwd,
        "--chdir"@,
        cwd,
        "--unshare-all"@,
        "--share-net"@,
        "--die-with-parent"@,
        "bash"@,
        "-c"@,
        command,
    ]
}

/// How a command is run on a platform: the program and its arguments.
/// `bwrap` says whether that program is there; without it, a command runs
/// uncontained on Linux. On a platform that is not known nothing is run, and
/// the error says so.
pub open spec fn invocation_of(
    platform: Platform,
    bwrap: bool,
    command: Seq<char>,
    cwd: Seq<char>,
    allowed: Seq<Seq<char>>,
) -> Result<(Seq<char>, Seq<Seq<char>>), Seq<char>> {
    match platform {
        Platform::MacOs => Ok(
            (
                "sandbox-exec"@,
                seq!["-p"@, macos_profile(cwd, allowed), "bash"@, "-c"@, command],
            ),
        ),
        Platform::Linux => if bwrap {
            Ok(("bwrap"@, bwrap_args(command, cwd, allowed)))
        } else {
            Ok(("bash"@, seq!["-c"@, command]))
        },
        Platform::Windows => Ok(("cmd"@, seq!["/C"@, command])),
        Platform::Other => Err(unsupported_text()),
    }
}

/// What is reported on a platform that is not known.
pub open spec fn unsupported_text() -> Seq<char> {
    "Sandboxed bash not supported on this platform"@
}

fn push_arg(args: &mut Vec<String>, arg: &str)
    ensures
        strs(final(args)@) == strs(old(args)@).push(arg@),
{
    let a = arg.to_owned();
    assert(strs(args@.push(a)) =~= strs(args@).push(a@));
    args.push(a);
}

/// Writes the macOS sandbox profile.
pub fn sandbox_profile(cwd: &str, allowed: &Vec<String>) -> (out: String)
    ensures
        out@ == macos_profile(cwd@, strs(allowed@)),
{
    let mut rules: Vec<String> = Vec::new();
    let mut i: usize = 0;
    while i < allowed.len()
        invariant
            i <= allowed.len(),
            rules.len() == i,
            forall|j: int| 0 <= j < i ==> rules@[j]@ == write_rule(allowed@[j]@),
        decreases allowed.len() - i,
    {
        let mut r: Vec<char> = Vec::new();
        push_str(&mut r, "(allow file-write* (subpath \"");
        push_str(&mut r, allowed[i].as_str());
        push_str(&mut r, "\"))");
        assert(r@ =~= write_rule(allowed@[i as int]@));
        rules.push(string_of(&r));
        i += 1;
    }
    assert(strs(rules@) =~= write_rules(strs(allowed@)));
    let mut out: Vec<char> = Vec::new();
    push_str(
        &mut out,
        "(version 1)\n(deny default)\n(allow process*)\n(allow file-read*)\n(allow file-write* (subpath \"",
    );
    push_str(&mut out, cwd);
    push_str(
        &mut out,
        "\"))\n(allow file-write* (subpath \"/tmp\"))\n(allow file-write* (subpath \"/private/tmp\"))\n(allow file-write* (subpath \"/var/folders\"))\n(allow file-write* (subpath \"/private/var/folders\"))\n(allow file-write* (subpath \"/dev\"))\n",
    );
    push_str(&mut out, join_strings(&rules, "\n").as_str());
    push_str(
        &mut out,
        "\n(allow sysctl-read)\n(allow mach-lookup)\n(allow signal)\n(allow network*)",
    );
    assert(out@ =~= macos_profile(cwd@, strs(allowed@)));
    string_of(&out)
}

fn bwrap_arguments(command: &str, cwd: &str, allowed: &Vec<String>) -> (out: Vec<String>)
    ensures
        strs(out@) == bwrap_args(command@, cwd@, strs(allowed@)),
{
    let mut args: Vec<String> = Vec::new();
    assert(strs(args@) =~= Seq::<Seq<char>>::empty());
    push_arg(&mut args, "--ro-bind");
    push_arg(&mut args, "/usr");
    push_arg(&mut args, "/usr");
    push_arg(&mut args, "--ro-bind");
    push_arg(&mut args, "/bin");
    push_arg(&mut args, "/bin");
    push_arg(&mut args, "--ro-bind");
    push_arg(&mut args, "/lib");
    push_arg(&mut args, "/lib");
    push_arg(&mut args, "--ro-bind");
    push_arg(&mut args, "/lib64");
    push_arg(&mut args, "/lib64");
    push_arg(&mut args, "--ro-bind");
    push_arg(&mut args, "/etc");
    push_arg(&mut args, "/etc");
    let ghost head = strs(args@);
    assert(head =~= seq![
        "--ro-bind"@,
        "/usr"@,
        "/usr"@,
        "--ro-bind"@,
        "/bin"@,
        "/bin"@,
        "--ro-bind"@,
        "/lib"@,
        "/lib"@,
        "--ro-bind"@,
        "/lib64"@,
        "/lib64"@,
        "--ro-bind"@,
        "/etc"@,
        "/etc"@,
    ]);
    let mut i: usize = 0;
    let ghost paths = strs(allowed@);
    assert(paths.take(0) =~= Seq::empty());
    assert(head + bind_args(paths.take(0)) =~= head);
    while i < allowed.len()
        invariant
            i <= allowed.len(),
            paths == strs(allowed@),
            strs(args@) == head + bind_args(paths.take(i as int)),
        decreases allowed.len() - i,
    {
        proof {
            assert(paths.take(i + 1).drop_last() =~= paths.take(i as int));
            assert(paths.take(i + 1).last() == allowed@[i as int]@);
        }
        push_arg(&mut args, "--bind");
        push_arg(&mut args, allowed[i].as_str());
        push_arg(&mut args, allowed[i].as_str());
        i += 1;
        assert(strs(args@) =~= head + bind_args(paths.take(i as int)));
    }
    assert(paths.take(i as int) =~= paths);
    let ghost mid = strs(args@);
    push_arg(&mut args, "--bind");
    push_arg(&mut args, cwd);
    push_arg(&mut args, cwd);
    push_arg(&mut args, "--chdir");
    push_arg(&mut args, cwd);
    push_arg(&mut args, "--unshare-all");
    push_arg(&mut args, "--share-net");
    push_arg(&mut args, "--die-with-parent");
    push_arg(&mut args, "bash");
    push_arg(&mut args, "-c");
    push_arg(&mut args, command);
    assert(strs(args@) =~= mid + seq![
        "--bind"@,
        cwd@,
        cwd@,
        "--chdir"@,
        cwd@,
        "--unshare-all"@,
        "--share-net"@,
        "--die-with-parent"@,
        "bash"@,
        "-c"@,
        command@,
    ]);
    args
}

/// The view of an invocation.
pub open spec fn invocation_view(o: Result<Invocation, String>) -> Result<
    (Seq<char>, Seq<Seq<char>>),
    Seq<char>,
> {
    match o {
        Ok(i) => Ok((i.program@, strs(i.args@))),
        Err(e) => Err(e@),
    }
}

/// Says how a command is to be run so that it can write only below the
/// working directory and the allowed paths, as far as the platform can
/// contain it.
pub fn run_sandboxed(
    platform: Platform,
    bwrap: bool,
    command: &str,
    cwd: &str,
    allowed_paths: &Vec<String>,
) -> (out: Result<Invocation, String>)
    ensures
        invocation_view(out) == invocation_of(platform, bwrap, command@, cwd@, strs(allowed_paths@)),
{
    match platform {
        Platform::MacOs => {
            let mut args: Vec<String> = Vec::new();
            assert(strs(args@) =~= Seq::<Seq<char>>::empty());
            push_arg(&mut args, "-p");
            push_arg(&mut args, sandbox_profile(cwd, allowed_paths).as_str());
            push_arg(&mut args, "bash");
            push_arg(&mut args, "-c");
            push_arg(&mut args, command);
            assert(strs(args@) =~= seq![
                "-p"@,
                macos_profile(cwd@, strs(allowed_paths@)),
                "bash"@,
                "-c"@,
                command@,
            ]);
            Ok(Invocation { program: "sandbox-exec".to_owned(), args })
        },
        Platform::Linux => {
            if bwrap {
                Ok(
                    Invocation {
                        program: "bwrap".to_owned(),
                        args: bwrap_arguments(command, cwd, allowed_paths),
                    },
                )
            } else {
                let mut args: Vec<String> = Vec::new();
                assert(strs(args@) =~= Seq::<Seq<char>>::empty());
                push_arg(&mut args, "-c");
                push_arg(&mut args, command);
                assert(strs(args@) =~= seq!["-c"@, command@]);
                Ok(Invocation { program: "bash".to_owned(), args })
            }
        },
        Platform::Windows => {
            let mut args: Vec<String> = Vec::new();
            assert(strs(args@) =~= Seq::<Seq<char>>::empty());
            push_arg(&mut args, "/C");
            push_arg(&mut args, command);
            assert(strs(args@) =~= seq!["/C"@, command@]);
            Ok(Invocation { program: "cmd".to_owned(), args })
        },
        Platform::Other => Err("Sandboxed bash not supported on this platform".to_owned()),
    }
}

/// The file of the list of projects, under the user's configuration
/// directory, or under `.` where there is none.
pub fn projects_path(config_dir: Option<&str>) -> (out: String)
    ensures
        out@ == crate::paths::join_path(
            crate::paths::join_path(
                match config_dir {
                    Some(d) => d@,
                    None => "."@,
                },
                "hal"@,
            ),
            "projects.md"@,
        ),
{
    let base = match config_dir {
        Some(d) => chars_of(d),
        None => chars_of("."),
    };
    let dir = crate::paths::joined(&base, &chars_of("hal"));
    let file = crate::paths::joined(&dir, &chars_of("projects.md"));
    string_of(&file)
}

/// The list of projects that a user starts with.
pub open spec fn projects_seed() -> Seq<char> {
    "# Projects\n\n## Active\n\n## Completed\n\n## Ideas\n"@
}

/// What the tool that shows the projects gives back: the list as it is
/// stored, or the list that a user starts with, which is then to be stored.
pub fn tool_view_projects(stored: Option<String>) -> (out: String)
    ensures
        out@ == match stored {
            Some(s) => s@,
            None => projects_seed(),
        },
{
    match stored {
        Some(s) => s,
        None => "# Projects\n\n## Active\n\n## Completed\n\n## Ideas\n".to_owned(),
    }
}

/// What the tool that replaces the projects gives back.
pub fn tool_update_projects(written: &Result<(), String>) -> (out: String)
    ensures
        out@ == match written {
            Ok(_) => "Projects updated successfully"@,
            Err(e) => "Error updating projects: "@ + e@,
        },
{
    match written {
        Ok(_) => "Projects updated successfully".to_owned(),
        Err(e) => prefixed("Error updating projects: ", e.as_str()),
    }
}

} // verus!
