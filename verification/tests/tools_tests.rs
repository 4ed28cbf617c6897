use hal::tools::{execute_tool_by_name, parse_tool_args, plan_tool, ToolArgs, ToolPlan};

fn no_args() -> ToolArgs {
    ToolArgs {
        path: None,
        content: None,
        old: None,
        new: None,
        pattern: None,
        command: None,
        start_line: None,
        end_line: None,
        context: None,
    }
}

fn done(plan: ToolPlan) -> String {
    match plan {
        ToolPlan::Done(s) => s,
        other => panic!("not done: {:?}", other),
    }
}

#[test]
fn arguments_are_read_from_json() {
    let args = parse_tool_args(
        "{\"path\":\"src/a.rs\",\"start_line\":3,\"end_line\":7,\"context\":-1,\"old\":\"x\"}",
    );
    assert_eq!(args.path.as_deref(), Some("src/a.rs"));
    assert_eq!(args.start_line, Some(3));
    assert_eq!(args.end_line, Some(7));
    assert_eq!(args.context, Some(-1));
    assert_eq!(args.old.as_deref(), Some("x"));
    assert_eq!(args.new, None);
    assert_eq!(args.command, None);
}

#[test]
fn arguments_of_the_wrong_type_are_not_there() {
    let args = parse_tool_args("{\"path\":5,\"start_line\":\"3\",\"end_line\":-2,\"context\":1.5}");
    assert_eq!(args.path, None);
    assert_eq!(args.start_line, None);
    assert_eq!(args.end_line, None);
    assert_eq!(args.context, None);
}

#[test]
fn text_that_is_no_json_holds_no_arguments() {
    let args = parse_tool_args("not json");
    assert_eq!(args.path, None);
    assert_eq!(args.command, None);
    let args = parse_tool_args("[1,2]");
    assert_eq!(args.path, None);
    let args = parse_tool_args("\"path\"");
    assert_eq!(args.path, None);
}

#[test]
fn read_file_needs_a_path() {
    assert_eq!(done(execute_tool_by_name("read_file", "{}")), "Error: path is required");
    assert_eq!(
        done(execute_tool_by_name("read_file", "{\"path\":\"\"}")),
        "Error: path is required"
    );
    match execute_tool_by_name("read_file", "{\"path\":\"a.txt\",\"start_line\":2}") {
        ToolPlan::ReadFile { path, start_line, end_line } => {
            assert_eq!(path, "a.txt");
            assert_eq!(start_line, Some(2));
            assert_eq!(end_line, None);
        }
        other => panic!("{:?}", other),
    }
}

#[test]
fn write_and_edit_check_their_arguments() {
    assert_eq!(done(execute_tool_by_name("write_file", "{}")), "Error: path is required");
    match execute_tool_by_name("write_file", "{\"path\":\"a\"}") {
        ToolPlan::WriteFile { path, content } => {
            assert_eq!(path, "a");
            assert_eq!(content, "");
        }
        other => panic!("{:?}", other),
    }
    assert_eq!(done(execute_tool_by_name("edit_file", "{\"old\":\"x\"}")), "Error: path is required");
    assert_eq!(
        done(execute_tool_by_name("edit_file", "{\"path\":\"a\"}")),
        "Error: old text is required"
    );
    match execute_tool_by_name("edit_file", "{\"path\":\"a\",\"old\":\"x\",\"new\":\"y\"}") {
        ToolPlan::EditFile { path, old, new } => {
            assert_eq!((path.as_str(), old.as_str(), new.as_str()), ("a", "x", "y"));
        }
        other => panic!("{:?}", other),
    }
}

#[test]
fn listing_and_searching_default_to_the_working_directory() {
    match execute_tool_by_name("list_dir", "{}") {
        ToolPlan::ListDir { path } => assert_eq!(path, "."),
        other => panic!("{:?}", other),
    }
    assert_eq!(done(execute_tool_by_name("search_files", "{}")), "Error: pattern is required");
    match execute_tool_by_name("search_files", "{\"pattern\":\"*.rs\"}") {
        ToolPlan::SearchFiles { pattern, base } => {
            assert_eq!(pattern, "*.rs");
            assert_eq!(base, ".");
        }
        other => panic!("{:?}", other),
    }
    assert_eq!(done(execute_tool_by_name("grep", "{\"path\":\"src\"}")), "Error: pattern is required");
    match execute_tool_by_name("grep", "{\"pattern\":\"fn\"}") {
        ToolPlan::Grep { pattern, path, context } => {
            assert_eq!(pattern, "fn");
            assert_eq!(path, ".");
            assert_eq!(context, 2);
        }
        other => panic!("{:?}", other),
    }
    match execute_tool_by_name("grep", "{\"pattern\":\"fn\",\"context\":0,\"path\":\"src\"}") {
        ToolPlan::Grep { path, context, .. } => {
            assert_eq!(path, "src");
            assert_eq!(context, 0);
        }
        other => panic!("{:?}", other),
    }
    match execute_tool_by_name("grep", "{\"pattern\":\"fn\",\"context\":-3}") {
        ToolPlan::Grep { context, .. } => assert_eq!(context, u64::MAX),
        other => panic!("{:?}", other),
    }
}

#[test]
fn bash_and_the_coach_tools() {
    assert_eq!(done(execute_tool_by_name("bash", "{}")), "Error: command is required");
    match execute_tool_by_name("bash", "{\"command\":\"ls\"}") {
        ToolPlan::Bash { command } => assert_eq!(command, "ls"),
        other => panic!("{:?}", other),
    }
    assert!(matches!(execute_tool_by_name("view_projects", "{}"), ToolPlan::ViewProjects));
    match execute_tool_by_name("update_projects", "{\"content\":\"# P\"}") {
        ToolPlan::UpdateProjects { content } => assert_eq!(content, "# P"),
        other => panic!("{:?}", other),
    }
}

#[test]
fn a_tool_that_is_not_known_is_answered_at_once() {
    assert_eq!(done(execute_tool_by_name("fly", "{}")), "Unknown tool: fly");
    assert_eq!(done(plan_tool("", &no_args())), "Unknown tool: ");
}
