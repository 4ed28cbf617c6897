//! Fixed texts of the agent, and the short label that says which tool is
//! running.

use vstd::prelude::*;
use crate::config::Mode;
use crate::json::text_or;
use crate::text::{chars_of, push_all, push_str, slice_of, str_eq, string_of};
use crate::tools::{args_of, opt_or, parse_tool_args, ArgsView, ToolArgs};

verus! {

/// What the model is told of its task in each mode.
pub open spec fn system_prompt_of(mode: Mode) -> Seq<char> {
    match mode {
        Mode::Coding =>
            "You are a coding agent with file access. Be concise. Use grep to locate code, then read specific line ranges when needed. When you complete a task using tools, briefly state what you did and stop. The user can see all tool outputs including file diffs, so never repeat code in markdown blocks after writing files. For build commands (cargo build, npm run, etc.), use `2>&1 | tail -30` by default. If you need to find specific errors in verbose output, use `2>&1 | grep -i error` instead."@,
        Mode::Coach =>
            "You are a productivity coach. Track projects in projects.md. Give practical advice and encouragement."@,
    }
}

/// What the model is told of its task in each mode.
pub fn get_system_prompt(mode: &Mode) -> (out: &'static str)
    ensures
        out@ == system_prompt_of(*mode),
{
    match mode {
        Mode::Coding => {
            "You are a coding agent with file access. Be concise. Use grep to locate code, then read specific line ranges when needed. When you complete a task using tools, briefly state what you did and stop. The user can see all tool outputs including file diffs, so never repeat code in markdown blocks after writing files. For build commands (cargo build, npm run, etc.), use `2>&1 | tail -30` by default. If you need to find specific errors in verbose output, use `2>&1 | grep -i error` instead."
        },
        Mode::Coach => {
            "You are a productivity coach. Track projects in projects.md. Give practical advice and encouragement."
        },
    }
}

/// The system prompt of a conversation: the prompt of the mode and, for
/// coding, the project's context where the project gives one.
pub open spec fn full_system_prompt(mode: Mode, context: Option<Seq<char>>) -> Seq<char> {
    match (mode, context) {
        (Mode::Coding, Some(c)) => system_prompt_of(mode) + "\n\n## Project Context\n\n"@ + c,
        _ => system_prompt_of(mode),
    }
}

/// Builds the system prompt of a conversation.
pub fn build_system_prompt(mode: &Mode, context: Option<&str>) -> (out: String)
    ensures
        out@ == full_system_prompt(*mode, crate::sandbox::opt_str(context)),
{
    let mut out = chars_of(get_system_prompt(mode));
    match mode {
        Mode::Coding => match context {
            Some(c) => {
                push_str(&mut out, "\n\n## Project Context\n\n");
                push_str(&mut out, c);
            },
            None => {},
        },
        Mode::Coach => {},
    }
    string_of(&out)
}

/// What `/help` says.
pub open spec fn help_text_of() -> Seq<char> {
    "**Commands:**\n- `/clear` - Save and start new session\n- `/sessions` - List saved sessions\n- `/load <id>` - Load a saved session\n- `/provider` - List providers\n- `/provider <name>` - Switch provider\n- `/key <key>` - Set API key for current provider\n- `/quit` - Exit (also /exit, /q)\n- `/help` - Show this help\n\n**File references:**\n- `@` - Type @ to open file picker\n- `Tab/Enter` - Select file from picker\n- `Esc` - Cancel picker\n\n**Navigation:**\n- `↑/↓` - History / picker navigation\n- `Ctrl+U/D` - Scroll chat history"@
}

/// What `/help` says.
pub fn help_text() -> (out: &'static str)
    ensures
        out@ == help_text_of(),
{
    "**Commands:**\n- `/clear` - Save and start new session\n- `/sessions` - List saved sessions\n- `/load <id>` - Load a saved session\n- `/provider` - List providers\n- `/provider <name>` - Switch provider\n- `/key <key>` - Set API key for current provider\n- `/quit` - Exit (also /exit, /q)\n- `/help` - Show this help\n\n**File references:**\n- `@` - Type @ to open file picker\n- `Tab/Enter` - Select file from picker\n- `Esc` - Cancel picker\n\n**Navigation:**\n- `↑/↓` - History / picker navigation\n- `Ctrl+U/D` - Scroll chat history"
}

/// The label of a running tool: what it does, to what. A command of more
/// than 40 characters is cut there.
pub open spec fn tool_label(name: Seq<char>, args: ArgsView) -> Seq<char> {
    if name == "read_file"@ {
        "read "@ + text_or(args.path, "?"@)
    } else if name == "write_file"@ {
        "write "@ + text_or(args.path, "?"@)
    } else if name == "list_dir"@ {
        "ls "@ + text_or(args.path, "."@)
    } else if name == "search_files"@ {
        "search "@ + text_or(args.pattern, "*"@) + " in "@ + text_or(args.path, "."@)
    } else if name == "bash"@ {
        let cmd = text_or(args.command, "?"@);
        if cmd.len() > 40 {
            "$ "@ + cmd.take(40) + "..."@
        } else {
            "$ "@ + cmd
        }
    } else if name == "view_projects"@ {
        "view projects"@
    } else if name == "update_projects"@ {
        "update projects"@
    } else {
        name
    }
}

/// Computes `tool_label`.
pub fn label_tool(name: &str, args: &ToolArgs) -> (out: String)
    ensures
        out@ == tool_label(name@, args@),
{
    let mut out: Vec<char> = Vec::new();
    if str_eq(name, "read_file") {
        push_str(&mut out, "read ");
        push_str(&mut out, opt_or(&args.path, "?").as_str());
    } else if str_eq(name, "write_file") {
        push_str(&mut out, "write ");
        push_str(&mut out, opt_or(&args.path, "?").as_str());
    } else if str_eq(name, "list_dir") {
        push_str(&mut out, "ls ");
        push_str(&mut out, opt_or(&args.path, ".").as_str());
    } else if str_eq(name, "search_files") {
        push_str(&mut out, "search ");
        push_str(&mut out, opt_or(&args.pattern, "*").as_str());
        push_str(&mut out, " in ");
        push_str(&mut out, opt_or(&args.path, ".").as_str());
    } else if str_eq(name, "bash") {
        let cmd = chars_of(opt_or(&args.command, "?").as_str());
        push_str(&mut out, "$ ");
        if cmd.len() > 40 {
            let head = slice_of(&cmd, 0, 40);
            assert(head@ =~= cmd@.take(40));
            push_all(&mut out, &head);
            push_str(&mut out, "...");
        } else {
            push_all(&mut out, &cmd);
        }
    } else if str_eq(name, "view_projects") {
        push_str(&mut out, "view projects");
    } else if str_eq(name, "update_projects") {
        push_str(&mut out, "update projects");
    } else {
        push_str(&mut out, name);
    }
    assert(out@ =~= tool_label(name@, args@));
    string_of(&out)
}

/// The label of a running tool, from its name and the JSON text of its
/// arguments.
pub fn format_tool_call(name: &str, args: &str) -> (out: String)
    ensures
        out@ == tool_label(name@, args_of(args@)),
{
    let parsed = parse_tool_args(args);
    label_tool(name, &parsed)
}

} // verus!
