use hal::shell::{
    bash_output, execute_bash_unsandboxed, execute_bash_with_paths, projects_path, run_sandboxed,
    sandbox_profile, tool_update_projects, tool_view_projects, Platform, ProcessOutput,
};

fn out(stdout: &str, stderr: &str, success: bool, code: Option<i32>) -> Result<ProcessOutput, String> {
    Ok(ProcessOutput { stdout: stdout.to_string(), stderr: stderr.to_string(), success, code })
}

#[test]
fn output_follows_the_command() {
    assert_eq!(bash_output("ls", &out("a\nb\n", "", true, Some(0))), "$ ls\na\nb\n");
    assert_eq!(bash_output("ls", &out("", "", true, Some(0))), "$ ls\n");
    assert_eq!(bash_output("ls", &out("", "oops", true, Some(0))), "$ ls\noops");
    assert_eq!(bash_output("ls", &out("a", "oops", true, Some(0))), "$ ls\na\noops");
}

#[test]
fn a_failed_command_shows_its_exit_code() {
    assert_eq!(bash_output("false", &out("", "", false, Some(1))), "$ false\n\n[exit code: 1]");
    assert_eq!(
        bash_output("x", &out("o", "e", false, Some(127))),
        "$ x\no\ne\n[exit code: 127]"
    );
    assert_eq!(bash_output("x", &out("", "", false, None)), "$ x\n\n[exit code: -1]");
    assert_eq!(bash_output("x", &out("", "", false, Some(-9))), "$ x\n\n[exit code: -9]");
}

#[test]
fn a_command_that_cannot_run_is_an_error() {
    assert_eq!(bash_output("x", &Err("not found".to_string())), "$ x\nError: not found");
}

#[test]
fn bash_needs_a_command() {
    assert_eq!(
        execute_bash_with_paths("{}", &out("a", "", true, Some(0))),
        "Error: command is required"
    );
    assert_eq!(
        execute_bash_with_paths("{\"command\":\"echo a\"}", &out("a\n", "", true, Some(0))),
        "$ echo a\na\n"
    );
    assert_eq!(execute_bash_unsandboxed("{}", &out("a", "", true, Some(0))), "Error: command is required");
    assert_eq!(
        execute_bash_unsandboxed("{\"command\":\"x\"}", &out("a", "b", false, Some(1))),
        "ab"
    );
    assert_eq!(
        execute_bash_unsandboxed("{\"command\":\"x\"}", &Err("no".to_string())),
        "Error: no"
    );
}

#[test]
fn macos_runs_in_sandbox_exec() {
    let allowed = vec!["/home/u/.cargo".to_string(), "/opt/x".to_string()];
    let inv = run_sandboxed(Platform::MacOs, false, "cargo build", "/work", &allowed).unwrap();
    assert_eq!(inv.program, "sandbox-exec");
    assert_eq!(inv.args.len(), 5);
    assert_eq!(inv.args[0], "-p");
    assert_eq!(inv.args[2], "bash");
    assert_eq!(inv.args[3], "-c");
    assert_eq!(inv.args[4], "cargo build");
    let profile = "(version 1)\n(deny default)\n(allow process*)\n(allow file-read*)\n(allow file-write* (subpath \"/work\"))\n(allow file-write* (subpath \"/tmp\"))\n(allow file-write* (subpath \"/private/tmp\"))\n(allow file-write* (subpath \"/var/folders\"))\n(allow file-write* (subpath \"/private/var/folders\"))\n(allow file-write* (subpath \"/dev\"))\n(allow file-write* (subpath \"/home/u/.cargo\"))\n(allow file-write* (subpath \"/opt/x\"))\n(allow sysctl-read)\n(allow mach-lookup)\n(allow signal)\n(allow network*)";
    assert_eq!(inv.args[1], profile);
    assert_eq!(sandbox_profile("/work", &allowed), profile);
    assert!(sandbox_profile("/w", &vec![]).contains("(subpath \"/dev\"))\n\n(allow sysctl-read)"));
}

#[test]
fn linux_runs_in_bwrap_where_it_is_there() {
    let allowed = vec!["/a".to_string()];
    let inv = run_sandboxed(Platform::Linux, true, "ls", "/w", &allowed).unwrap();
    assert_eq!(inv.program, "bwrap");
    assert_eq!(
        inv.args,
        vec![
            "--ro-bind", "/usr", "/usr", "--ro-bind", "/bin", "/bin", "--ro-bind", "/lib", "/lib",
            "--ro-bind", "/lib64", "/lib64", "--ro-bind", "/etc", "/etc", "--bind", "/a", "/a",
            "--bind", "/w", "/w", "--chdir", "/w", "--unshare-all", "--share-net",
            "--die-with-parent", "bash", "-c", "ls",
        ]
    );
    let inv = run_sandboxed(Platform::Linux, false, "ls", "/w", &allowed).unwrap();
    assert_eq!(inv.program, "bash");
    assert_eq!(inv.args, vec!["-c", "ls"]);
}

#[test]
fn windows_runs_in_cmd_and_other_platforms_not_at_all() {
    let inv = run_sandboxed(Platform::Windows, false, "dir", "C:\\w", &vec![]).unwrap();
    assert_eq!(inv.program, "cmd");
    assert_eq!(inv.args, vec!["/C", "dir"]);
    assert_eq!(
        run_sandboxed(Platform::Other, true, "ls", "/w", &vec![]).err(),
        Some("Sandboxed bash not supported on this platform".to_string())
    );
}

#[test]
fn projects_start_from_a_seed() {
    assert_eq!(
        tool_view_projects(None),
        "# Projects\n\n## Active\n\n## Completed\n\n## Ideas\n"
    );
    assert_eq!(tool_view_projects(Some("# Mine".to_string())), "# Mine");
    assert_eq!(tool_update_projects(&Ok(())), "Projects updated successfully");
    assert_eq!(
        tool_update_projects(&Err("read-only".to_string())),
        "Error updating projects: read-only"
    );
    assert_eq!(projects_path(Some("/cfg")), "/cfg/hal/projects.md");
    assert_eq!(projects_path(None), "./hal/projects.md");
}
