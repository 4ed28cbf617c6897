//! The tools that the model may call, by name and by their arguments.
//!
//! A tool runs in two steps. `execute_tool_by_name` reads the arguments and
//! says what has to be done on the machine, if anything; the functions of
//! `fileops`, `listing`, `grep` and `shell` turn what came of it into the text
//! that the model gets back.

use vstd::prelude::*;
use crate::json::{
    json_signed, json_text, json_unsigned, signed_field, text_field, text_or, unsigned_field,
};
use crate::sandbox::opt_text;
use crate::text::{push_str, str_eq, string_of};

verus! {

/// The arguments of a tool call, as far as any tool reads them.
#[derive(Debug)]
pub struct ToolArgs {
    pub path: Option<String>,
    pub content: Option<String>,
    pub old: Option<String>,
    pub new: Option<String>,
    pub pattern: Option<String>,
    pub command: Option<String>,
    pub start_line: Option<u64>,
    pub end_line: Option<u64>,
    pub context: Option<i64>,
}

/// The arguments of a tool call as their texts.
pub struct ArgsView {
    pub path: Option<Seq<char>>,
    pub content: Option<Seq<char>>,
    pub old: Option<Seq<char>>,
    pub new: Option<Seq<char>>,
    pub pattern: Option<Seq<char>>,
    pub command: Option<Seq<char>>,
    pub start_line: Option<u64>,
    pub end_line: Option<u64>,
    pub context: Option<i64>,
}

impl View for ToolArgs {
    type V = ArgsView;

    open spec fn view(&self) -> ArgsView {
        ArgsView {
            path: opt_text(self.path),
            content: opt_text(self.content),
            old: opt_text(self.old),
            new: opt_text(self.new),
            pattern: opt_text(self.pattern),
            command: opt_text(self.command),
            start_line: self.start_line,
            end_line: self.end_line,
            context: self.context,
        }
    }
}

/// What a tool call asks of the machine.
#[derive(Debug)]
pub enum ToolPlan {
    /// Nothing: the result is known.
    Done(String),
    /// Read a file; the lines `start_line ..= end_line` are wanted.
    ReadFile { path: String, start_line: Option<u64>, end_line: Option<u64> },
    /// Write a file, with the directories above it.
    WriteFile { path: String, content: String },
    /// Replace one occurrence of `old` in a file by `new`.
    EditFile { path: String, old: String, new: String },
    /// List a directory.
    ListDir { path: String },
    /// Find the files under `base` whose names match a glob pattern.
    SearchFiles { pattern: String, base: String },
    /// Search the files under `path` for a regular expression.
    Grep { pattern: String, path: String, context: u64 },
    /// Run a shell command in the sandbox.
    Bash { command: String },
    /// Read the list of projects.
    ViewProjects,
    /// Replace the list of projects.
    UpdateProjects { content: String },
}

/// What a tool call asks of the machine, as its texts.
pub enum PlanView {
    Done(Seq<char>),
    ReadFile { path: Seq<char>, start_line: Option<u64>, end_line: Option<u64> },
    WriteFile { path: Seq<char>, content: Seq<char> },
    EditFile { path: Seq<char>, old: Seq<char>, new: Seq<char> },
    ListDir { path: Seq<char> },
    SearchFiles { pattern: Seq<char>, base: Seq<char> },
    Grep { pattern: Seq<char>, path: Seq<char>, context: u64 },
    Bash { command: Seq<char> },
    ViewProjects,
    UpdateProjects { content: Seq<char> },
}

impl View for ToolPlan {
    type V = PlanView;

    open spec fn view(&self) -> PlanView {
        match self {
            ToolPlan::Done(s) => PlanView::Done(s@),
            ToolPlan::ReadFile { path, start_line, end_line } => PlanView::ReadFile {
                path: path@,
                start_line: *start_line,
                end_line: *end_line,
            },
            ToolPlan::WriteFile { path, content } => PlanView::WriteFile {
                path: path@,
                content: content@,
            },
            ToolPlan::EditFile { path, old, new } => PlanView::EditFile {
                path: path@,
                old: old@,
                new: new@,
            },
            ToolPlan::ListDir { path } => PlanView::ListDir { path: path@ },
            ToolPlan::SearchFiles { pattern, base } => PlanView::SearchFiles {
                pattern: pattern@,
                base: base@,
            },
            ToolPlan::Grep { pattern, path, context } => PlanView::Grep {
                pattern: pattern@,
                path: path@,
                context: *context,
            },
            ToolPlan::Bash { command } => PlanView::Bash { command: command@ },
            ToolPlan::ViewProjects => PlanView::ViewProjects,
            ToolPlan::UpdateProjects { content } => PlanView::UpdateProjects { content: content@ },
        }
    }
}

/// The arguments that a JSON document holds.
pub open spec fn args_of(doc: Seq<char>) -> ArgsView {
    ArgsView {
        path: json_text(doc, "path"@),
        content: json_text(doc, "content"@),
        old: json_text(doc, "old"@),
        new: json_text(doc, "new"@),
        pattern: json_text(doc, "pattern"@),
        command: json_text(doc, "command"@),
        start_line: json_unsigned(doc, "start_line"@),
        end_line: json_unsigned(doc, "end_line"@),
        context: json_signed(doc, "context"@),
    }
}

/// The lines of context that a search shows around a match: two where none
/// is asked for; a negative number counts as no limit.
pub open spec fn context_of(asked: Option<i64>) -> u64 {
    match asked {
        Some(c) => if c < 0 {
            u64::MAX
        } else {
            c as u64
        },
        None => 2,
    }
}

/// What the tool `name` asks of the machine for the given arguments. A call
/// that lacks an argument it needs, or names no tool, is answered at once.
pub open spec fn tool_plan(name: Seq<char>, args: ArgsView) -> PlanView {
    let path = text_or(args.path, ""@);
    if name == "read_file"@ {
        if path.len() == 0 {
            PlanView::Done("Error: path is required"@)
        } else {
            PlanView::ReadFile { path, start_line: args.start_line, end_line: args.end_line }
        }
    } else if name == "write_file"@ {
        if path.len() == 0 {
            PlanView::Done("Error: path is required"@)
        } else {
            PlanView::WriteFile { path, content: text_or(args.content, ""@) }
        }
    } else if name == "edit_file"@ {
        if path.len() == 0 {
            PlanView::Done("Error: path is required"@)
        } else if text_or(args.old, ""@).len() == 0 {
            PlanView::Done("Error: old text is required"@)
        } else {
            PlanView::EditFile { path, old: text_or(args.old, ""@), new: text_or(args.new, ""@) }
        }
    } else if name == "list_dir"@ {
        PlanView::ListDir { path: text_or(args.path, "."@) }
    } else if name == "search_files"@ {
        if text_or(args.pattern, ""@).len() == 0 {
            PlanView::Done("Error: pattern is required"@)
        } else {
            PlanView::SearchFiles {
                pattern: text_or(args.pattern, ""@),
                base: text_or(args.path, "."@),
            }
        }
    } else if name == "grep"@ {
        if text_or(args.pattern, ""@).len() == 0 {
            PlanView::Done("Error: pattern is required"@)
        } else {
            PlanView::Grep {
                pattern: text_or(args.pattern, ""@),
                path: text_or(args.path, "."@),
                context: context_of(args.context),
            }
        }
    } else if name == "bash"@ {
        if text_or(args.command, ""@).len() == 0 {
            PlanView::Done("Error: command is required"@)
        } else {
            PlanView::Bash { command: text_or(args.command, ""@) }
        }
    } else if name == "view_projects"@ {
        PlanView::ViewProjects
    } else if name == "update_projects"@ {
        PlanView::UpdateProjects { content: text_or(args.content, ""@) }
    } else {
        PlanView::Done("Unknown tool: "@ + name)
    }
}

/// The text of an optional string, or a default.
pub fn opt_or(o: &Option<String>, default: &str) -> (out: String)
    ensures
        out@ == text_or(opt_text(*o), default@),
{
    match o {
        Some(s) => s.clone(),
        None => default.to_owned(),
    }
}

fn done(message: &str) -> (out: ToolPlan)
    ensures
        out@ == PlanView::Done(message@),
{
    ToolPlan::Done(message.to_owned())
}

fn is_empty(s: &String) -> (b: bool)
    ensures
        b == (s@.len() == 0),
{
    s.as_str().is_empty()
}

/// Reads the arguments of a tool call out of their JSON text.
pub fn parse_tool_args(args_str: &str) -> (out: ToolArgs)
    ensures
        out@ == args_of(args_str@),
{
    ToolArgs {
        path: text_field(args_str, "path"),
        content: text_field(args_str, "content"),
        old: text_field(args_str, "old"),
        new: text_field(args_str, "new"),
        pattern: text_field(args_str, "pattern"),
        command: text_field(args_str, "command"),
        start_line: unsigned_field(args_str, "start_line"),
        end_line: unsigned_field(args_str, "end_line"),
        context: signed_field(args_str, "context"),
    }
}

/// Says what the tool `name` asks of the machine for the given arguments.
pub fn plan_tool(name: &str, args: &ToolArgs) -> (out: ToolPlan)
    ensures
        out@ == tool_plan(name@, args@),
{
    let path = opt_or(&args.path, "");
    if str_eq(name, "read_file") {
        if is_empty(&path) {
            done("Error: path is required")
        } else {
            ToolPlan::ReadFile { path, start_line: args.start_line, end_line: args.end_line }
        }
    } else if str_eq(name, "write_file") {
        if is_empty(&path) {
            done("Error: path is required")
        } else {
            ToolPlan::WriteFile { path, content: opt_or(&args.content, "") }
        }
    } else if str_eq(name, "edit_file") {
        let old = opt_or(&args.old, "");
        if is_empty(&path) {
            done("Error: path is required")
        } else if is_empty(&old) {
            done("Error: old text is required")
        } else {
            ToolPlan::EditFile { path, old, new: opt_or(&args.new, "") }
        }
    } else if str_eq(name, "list_dir") {
        ToolPlan::ListDir { path: opt_or(&args.path, ".") }
    } else if str_eq(name, "search_files") {
        let pattern = opt_or(&args.pattern, "");
        if is_empty(&pattern) {
            done("Error: pattern is required")
        } else {
            ToolPlan::SearchFiles { pattern, base: opt_or(&args.path, ".") }
        }
    } else if str_eq(name, "grep") {
        let pattern = opt_or(&args.pattern, "");
        if is_empty(&pattern) {
            done("Error: pattern is required")
        } else {
            let context: u64 = match args.context {
                Some(c) => if c < 0 {
                    u64::MAX
                } else {
                    c as u64
                },
                None => 2,
            };
            ToolPlan::Grep { pattern, path: opt_or(&args.path, "."), context }
        }
    } else if str_eq(name, "bash") {
        let command = opt_or(&args.command, "");
        if is_empty(&command) {
            done("Error: command is required")
        } else {
            ToolPlan::Bash { command }
        }
    } else if str_eq(name, "view_projects") {
        ToolPlan::ViewProjects
    } else if str_eq(name, "update_projects") {
        ToolPlan::UpdateProjects { content: opt_or(&args.content, "") }
    } else {
        let mut out: Vec<char> = Vec::new();
        push_str(&mut out, "Unknown tool: ");
        push_str(&mut out, name);
        assert(out@ =~= "Unknown tool: "@ + name@);
        ToolPlan::Done(string_of(&out))
    }
}

/// Says what a tool call asks of the machine, from the tool's name and the
/// JSON text of its arguments alone.
pub fn execute_tool_by_name(name: &str, args_str: &str) -> (out: ToolPlan)
    ensures
        out@ == tool_plan(name@, args_of(args_str@)),
{
    let args = parse_tool_args(args_str);
    plan_tool(name, &args)
}

} // verus!
