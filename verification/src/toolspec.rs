//! The tools that the model is told of in each mode: their names, what they
//! do, and the arguments they take.

use vstd::prelude::*;
use crate::config::Mode;
use crate::lines::strs;

verus! {

/// An argument of a tool.
#[derive(Debug)]
pub struct ToolParam {
    pub name: String,
    /// The JSON type of the argument.
    pub kind: String,
    pub description: String,
}

/// A tool as the model is told of it.
#[derive(Debug)]
pub struct ToolDefinition {
    pub name: String,
    pub description: String,
    pub parameters: Vec<ToolParam>,
    /// The names of the arguments that a call must give.
    pub required: Vec<String>,
}

/// An argument of a tool as its texts.
pub struct ParamView {
    pub name: Seq<char>,
    pub kind: Seq<char>,
    pub description: Seq<char>,
}

/// A tool as its texts.
pub struct DefinitionView {
    pub name: Seq<char>,
    pub description: Seq<char>,
    pub parameters: Seq<ParamView>,
    pub required: Seq<Seq<char>>,
}

impl View for ToolParam {
    type V = ParamView;

    open spec fn view(&self) -> ParamView {
        ParamView { name: self.name@, kind: self.kind@, description: self.description@ }
    }
}

/// The arguments that a vector holds.
pub open spec fn param_views(v: Seq<ToolParam>) -> Seq<ParamView> {
    Seq::new(v.len(), |i: int| v[i]@)
}

impl View for ToolDefinition {
    type V = DefinitionView;

    open spec fn view(&self) -> DefinitionView {
        DefinitionView {
            name: self.name@,
            description: self.description@,
            parameters: param_views(self.parameters@),
            required: strs(self.required@),
        }
    }
}

/// The tools that a vector holds.
pub open spec fn definition_views(v: Seq<ToolDefinition>) -> Seq<DefinitionView> {
    Seq::new(v.len(), |i: int| v[i]@)
}

/// An argument of type string.
pub open spec fn text_param(name: Seq<char>, description: Seq<char>) -> ParamView {
    ParamView { name, kind: "string"@, description }
}

/// An argument of type integer.
pub open spec fn number_param(name: Seq<char>, description: Seq<char>) -> ParamView {
    ParamView { name, kind: "integer"@, description }
}

/// The tools for coding.
pub open spec fn coding_tools() -> Seq<DefinitionView> {
    seq![
        DefinitionView {
            name: "read_file"@,
            description: "Read the contents of a file. Use start_line/end_line to read specific sections (line numbers from grep output)."@,
            parameters: seq![
                text_param("path"@, "File path to read"@),
                number_param("start_line"@, "Starting line number, 1-indexed (optional)"@),
                number_param("end_line"@, "Ending line number, inclusive (optional)"@),
            ],
            required: seq!["path"@],
        },
        DefinitionView {
            name: "write_file"@,
            description: "Write content to a file (creates or overwrites)"@,
            parameters: seq![
                text_param("path"@, "File path to write"@),
                text_param("content"@, "Content to write"@),
            ],
            required: seq!["path"@, "content"@],
        },
        DefinitionView {
            name: "edit_file"@,
            description: "Replace a specific string in a file. Use for small edits instead of rewriting the whole file."@,
            parameters: seq![
                text_param("path"@, "File path to edit"@),
                text_param("old"@, "Exact text to find (must match exactly)"@),
                text_param("new"@, "Text to replace it with"@),
            ],
            required: seq!["path"@, "old"@, "new"@],
        },
        DefinitionView {
            name: "list_dir"@,
            description: "List files and directories in a path"@,
            parameters: seq![text_param("path"@, "Directory path (default: current dir)"@)],
            required: seq![],
        },
        DefinitionView {
            name: "search_files"@,
            description: "Search for files matching a pattern"@,
            parameters: seq![
                text_param("pattern"@, "Glob pattern (e.g., '*.rs', '**/*.json')"@),
                text_param("path"@, "Starting directory (default: current dir)"@),
            ],
            required: seq!["pattern"@],
        },
        DefinitionView {
            name: "grep"@,
            description: "Search file contents for a pattern. Returns matching lines with path and line number. Prefer this over read_file - refine your pattern if results are too broad rather than reading full files."@,
            parameters: seq![
                text_param("pattern"@, "Regex pattern to search for"@),
                text_param("path"@, "File or directory to search (default: current dir)"@),
                number_param("context"@, "Lines of context around matches (default: 2)"@),
            ],
            required: seq!["pattern"@],
        },
        DefinitionView {
            name: "bash"@,
            description: "Run a bash command (sandboxed to current directory). Use for git, build tools, package managers, etc."@,
            parameters: seq![text_param("command"@, "The bash command to execute"@)],
            required: seq!["command"@],
        },
    ]
}

/// The tools for coaching.
pub open spec fn coach_tools() -> Seq<DefinitionView> {
    seq![
        DefinitionView {
            name: "view_projects"@,
            description: "View the current projects.md file"@,
            parameters: seq![],
            required: seq![],
        },
        DefinitionView {
            name: "update_projects"@,
            description: "Update the projects.md file with new content"@,
            parameters: seq![text_param("content"@, "New markdown content for projects.md"@)],
            required: seq!["content"@],
        },
    ]
}

/// The tools of a mode.
pub open spec fn tools_of(mode: Mode) -> Seq<DefinitionView> {
    match mode {
        Mode::Coding => coding_tools(),
        Mode::Coach => coach_tools(),
    }
}

fn text_arg(params: &mut Vec<ToolParam>, name: &str, description: &str)
    ensures
        param_views(final(params)@) == param_views(old(params)@).push(
            text_param(name@, description@),
        ),
{
    let p = ToolParam {
        name: name.to_owned(),
        kind: "string".to_owned(),
        description: description.to_owned(),
    };
    assert(param_views(params@.push(p)) =~= param_views(params@).push(p@));
    params.push(p);
}

fn number_arg(params: &mut Vec<ToolParam>, name: &str, description: &str)
    ensures
        param_views(final(params)@) == param_views(old(params)@).push(
            number_param(name@, description@),
        ),
{
    let p = ToolParam {
        name: name.to_owned(),
        kind: "integer".to_owned(),
        description: description.to_owned(),
    };
    assert(param_views(params@.push(p)) =~= param_views(params@).push(p@));
    params.push(p);
}

fn needs(required: &mut Vec<String>, name: &str)
    ensures
        strs(final(required)@) == strs(old(required)@).push(name@),
{
    let n = name.to_owned();
    assert(strs(required@.push(n)) =~= strs(required@).push(n@));
    required.push(n);
}

fn no_params() -> (out: Vec<ToolParam>)
    ensures
        param_views(out@) == Seq::<ParamView>::empty(),
{
    let out: Vec<ToolParam> = Vec::new();
    assert(param_views(out@) =~= Seq::<ParamView>::empty());
    out
}

fn no_names() -> (out: Vec<String>)
    ensures
        strs(out@) == Seq::<Seq<char>>::empty(),
{
    let out: Vec<String> = Vec::new();
    assert(strs(out@) =~= Seq::<Seq<char>>::empty());
    out
}

fn define(
    defs: &mut Vec<ToolDefinition>,
    name: &str,
    description: &str,
    parameters: Vec<ToolParam>,
    required: Vec<String>,
)
    ensures
        definition_views(final(defs)@) == definition_views(old(defs)@).push(
            DefinitionView {
                name: name@,
                description: description@,
                parameters: param_views(parameters@),
                required: strs(required@),
            },
        ),
{
    let d = ToolDefinition {
        name: name.to_owned(),
        description: description.to_owned(),
        parameters,
        required,
    };
    assert(definition_views(defs@.push(d)) =~= definition_views(defs@).push(d@));
    defs.push(d);
}

fn define_file_tools(defs: &mut Vec<ToolDefinition>)
    ensures
        definition_views(final(defs)@) == definition_views(old(defs)@) + coding_tools().take(3),
{
    let mut p = no_params();
    let mut r = no_names();
    text_arg(&mut p, "path", "File path to read");
    number_arg(&mut p, "start_line", "Starting line number, 1-indexed (optional)");
    number_arg(&mut p, "end_line", "Ending line number, inclusive (optional)");
    needs(&mut r, "path");
    assert(param_views(p@) =~= coding_tools()[0].parameters);
    assert(strs(r@) =~= coding_tools()[0].required);
    define(
        defs,
        "read_file",
        "Read the contents of a file. Use start_line/end_line to read specific sections (line numbers from grep output).",
        p,
        r,
    );
    let mut p = no_params();
    let mut r = no_names();
    text_arg(&mut p, "path", "File path to write");
    text_arg(&mut p, "content", "Content to write");
    needs(&mut r, "path");
    needs(&mut r, "content");
    assert(param_views(p@) =~= coding_tools()[1].parameters);
    assert(strs(r@) =~= coding_tools()[1].required);
    define(defs, "write_file", "Write content to a file (creates or overwrites)", p, r);
    let mut p = no_params();
    let mut r = no_names();
    text_arg(&mut p, "path", "File path to edit");
    text_arg(&mut p, "old", "Exact text to find (must match exactly)");
    text_arg(&mut p, "new", "Text to replace it with");
    needs(&mut r, "path");
    needs(&mut r, "old");
    needs(&mut r, "new");
    assert(param_views(p@) =~= coding_tools()[2].parameters);
    assert(strs(r@) =~= coding_tools()[2].required);
    define(
        defs,
        "edit_file",
        "Replace a specific string in a file. Use for small edits instead of rewriting the whole file.",
        p,
        r,
    );
    assert(definition_views(defs@) =~= definition_views(old(defs)@) + coding_tools().take(3));
}

fn define_search_tools(defs: &mut Vec<ToolDefinition>)
    ensures
        definition_views(final(defs)@) == definition_views(old(defs)@) + coding_tools().subrange(
            3,
            7,
        ),
{
    let mut p = no_params();
    let r = no_names();
    text_arg(&mut p, "path", "Directory path (default: current dir)");
    assert(param_views(p@) =~= coding_tools()[3].parameters);
    define(defs, "list_dir", "List files and directories in a path", p, r);
    let mut p = no_params();
    let mut r = no_names();
    text_arg(&mut p, "pattern", "Glob pattern (e.g., '*.rs', '**/*.json')");
    text_arg(&mut p, "path", "Starting directory (default: current dir)");
    needs(&mut r, "pattern");
    assert(param_views(p@) =~= coding_tools()[4].parameters);
    assert(strs(r@) =~= coding_tools()[4].required);
    define(defs, "search_files", "Search for files matching a pattern", p, r);
    let mut p = no_params();
    let mut r = no_names();
    text_arg(&mut p, "pattern", "Regex pattern to search for");
    text_arg(&mut p, "path", "File or directory to search (default: current dir)");
    number_arg(&mut p, "context", "Lines of context around matches (default: 2)");
    needs(&mut r, "pattern");
    assert(param_views(p@) =~= coding_tools()[5].parameters);
    assert(strs(r@) =~= coding_tools()[5].required);
    define(
        defs,
        "grep",
        "Search file contents for a pattern. Returns matching lines with path and line number. Prefer this over read_file - refine your pattern if results are too broad rather than reading full files.",
        p,
        r,
    );
    let mut p = no_params();
    let mut r = no_names();
    text_arg(&mut p, "command", "The bash command to execute");
    needs(&mut r, "command");
    assert(param_views(p@) =~= coding_tools()[6].parameters);
    assert(strs(r@) =~= coding_tools()[6].required);
    define(
        defs,
        "bash",
        "Run a bash command (sandboxed to current directory). Use for git, build tools, package managers, etc.",
        p,
        r,
    );
    assert(definition_views(defs@) =~= definition_views(old(defs)@) + coding_tools().subrange(3, 7));
}

/// The tools that the model is told of in a mode.
pub fn get_tool_definitions(mode: &Mode) -> (out: Vec<ToolDefinition>)
    ensures
        definition_views(out@) == tools_of(*mode),
{
    let mut defs: Vec<ToolDefinition> = Vec::new();
    assert(definition_views(defs@) =~= Seq::<DefinitionView>::empty());
    match mode {
        Mode::Coding => {
            define_file_tools(&mut defs);
            define_search_tools(&mut defs);
            assert(definition_views(defs@) =~= coding_tools());
        },
        Mode::Coach => {
            define(
                &mut defs,
                "view_projects",
                "View the current projects.md file",
                no_params(),
                no_names(),
            );
            let mut p = no_params();
            let mut r = no_names();
            text_arg(&mut p, "content", "New markdown content for projects.md");
            needs(&mut r, "content");
            assert(param_views(p@) =~= coach_tools()[1].parameters);
            assert(strs(r@) =~= coach_tools()[1].required);
            define(
                &mut defs,
                "update_projects",
                "Update the projects.md file with new content",
                p,
                r,
            );
            assert(definition_views(defs@) =~= coach_tools());
        },
    }
    defs
}

} // verus!
