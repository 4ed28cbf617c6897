use hal::api::{ApiResponse, Usage};
use hal::app::{App, AppState, Effect, ModelPoll, Surroundings, ToolPoll};
use hal::config::Config;
use hal::journal::{MessageRole, WireRole};
use hal::keys::{handle_event, handle_key, Event, Key, KeyCode};
use hal::refs::FileProbe;
use hal::sandbox::{SandboxConfig, ToolchainEnv};
use hal::session::Session;
use hal::submit::{SubmitNeed, Supply};

fn env() -> Surroundings {
    Surroundings {
        now: 1_700_000_100,
        sandbox: SandboxConfig { allowed_paths: vec![] },
        toolchain: ToolchainEnv {
            home: Some("/home/u".to_string()),
            cargo_home: None,
            rustup_home: None,
            nvm_dir: None,
            gopath: None,
        },
    }
}

fn new_app() -> App {
    App::new(Config::default(), None, Some("key".to_string()), None, 1_700_000_000).unwrap()
}

/// Puts a line into the editor as if it had been typed with no picker open.
fn type_line(app: &mut App, line: &str) {
    app.editor.input = line.to_string();
    app.editor.input_cursor = line.chars().count();
}

fn call(id: &str, name: &str, arguments: &str) -> String {
    let mut function = serde_json::Map::new();
    function.insert("name".to_string(), serde_json::Value::String(name.to_string()));
    function.insert("arguments".to_string(), serde_json::Value::String(arguments.to_string()));
    let mut call = serde_json::Map::new();
    call.insert("id".to_string(), serde_json::Value::String(id.to_string()));
    call.insert("type".to_string(), serde_json::Value::String("function".to_string()));
    call.insert("function".to_string(), serde_json::Value::Object(function));
    serde_json::Value::Object(call).to_string()
}

fn answer(content: &str) -> ModelPoll {
    ModelPoll::Reply(Ok(ApiResponse {
        content: Some(content.to_string()),
        tool_calls: None,
        usage: Some(Usage { prompt_tokens: 10, completion_tokens: 5, total_tokens: 15 }),
    }))
}

fn calls(raws: Vec<String>) -> ModelPoll {
    ModelPoll::Reply(Ok(ApiResponse { content: None, tool_calls: Some(raws), usage: None }))
}

/// The invariant: idle exactly when nothing is pending.
fn check(app: &App) {
    let nothing = !app.pending_response
        && app.pending_tool_execution.is_none()
        && app.pending_tool_calls.is_empty()
        && app.permission_modal.is_none();
    assert_eq!(matches!(app.state, AppState::Idle), nothing);
    assert!(!app.api_messages.is_empty());
    assert_eq!(app.api_messages[0].role, WireRole::System);
}

fn tool_ids(app: &App) -> Vec<String> {
    app.api_messages
        .iter()
        .filter(|m| m.role == WireRole::Tool)
        .map(|m| m.tool_call_id.clone().unwrap())
        .collect()
}

#[test]
fn a_new_application_is_idle() {
    let app = new_app();
    check(&app);
    assert!(matches!(app.state, AppState::Idle));
    assert_eq!(app.api_messages.len(), 1);
    assert!(app.api_messages[0].content.as_ref().unwrap().starts_with("You are a coding agent"));
    assert!(app.messages.is_empty());
    assert_eq!(app.session.id, "1700000000");
    assert_eq!(app.api_key, "key");
    assert_eq!(app.provider.model, "gemini-3-flash-preview");
}

#[test]
fn a_new_application_needs_a_provider_and_a_key() {
    let mut config = Config::default();
    config.default_provider = "nobody".to_string();
    assert_eq!(
        App::new(config, None, Some("k".to_string()), None, 0).err(),
        Some("Provider 'nobody' not found".to_string())
    );
    assert_eq!(
        App::new(Config::default(), None, None, None, 0).err(),
        Some("Set $HAL_API_KEY_GEMINI with your API key".to_string())
    );
    let mut config = Config::default();
    config.providers[0].provider.api_key = Some("stored".to_string());
    let app = App::new(config, None, Some("env".to_string()), None, 0).unwrap();
    assert_eq!(app.api_key, "stored");
}

#[test]
fn the_project_context_joins_the_system_prompt() {
    let app =
        App::new(Config::default(), None, Some("k".to_string()), Some("Use tabs.".to_string()), 0).unwrap();
    let prompt = app.api_messages[0].content.clone().unwrap();
    assert!(prompt.ends_with("\n\n## Project Context\n\nUse tabs."));
    let mut config = Config::default();
    config.mode = hal::config::Mode::Coach;
    let app = App::new(config, None, Some("k".to_string()), Some("Use tabs.".to_string()), 0).unwrap();
    assert_eq!(
        app.api_messages[0].content.clone().unwrap(),
        "You are a productivity coach. Track projects in projects.md. Give practical advice and encouragement."
    );
}

#[test]
fn a_message_starts_a_turn() {
    let mut app = new_app();
    type_line(&mut app, "  hello  ");
    assert!(matches!(app.submit_needs(), SubmitNeed::Files(ref p) if p.is_empty()));
    let effect = app.submit_input(Supply::Files(vec![]), 1);
    assert!(matches!(effect, Effect::CallModel));
    check(&app);
    assert!(matches!(app.state, AppState::Thinking));
    assert!(app.pending_response);
    assert_eq!(app.editor.input, "");
    assert_eq!(app.editor.history, vec!["hello"]);
    assert_eq!(app.messages.len(), 1);
    assert_eq!(app.messages[0].content, "hello");
    assert_eq!(app.api_messages.len(), 2);
    assert_eq!(app.api_messages[1].role, WireRole::User);
    assert_eq!(app.api_messages[1].content.as_deref(), Some("hello"));

    let effect = app.poll_api_response(ModelPoll::Waiting, &env());
    assert!(matches!(effect, Effect::Nothing));
    assert!(matches!(app.state, AppState::Thinking));

    let effect = app.poll_api_response(answer("hi there"), &env());
    check(&app);
    assert!(matches!(app.state, AppState::Idle));
    assert_eq!(app.token_usage, Some((10, 5)));
    assert_eq!(app.messages[1].content, "hi there");
    assert!(matches!(app.messages[1].role, MessageRole::Assistant));
    assert_eq!(app.api_messages[2].role, WireRole::Assistant);
    assert_eq!(app.api_messages[2].content.as_deref(), Some("hi there"));
    match effect {
        Effect::SaveSession(s) => {
            assert_eq!(s.id, "1700000000");
            assert_eq!(s.updated_at, 1_700_000_100);
            assert_eq!(s.title, "hello");
            assert_eq!(s.messages.len(), 2);
            assert_eq!(s.api_messages.len(), 3);
        }
        other => panic!("{:?}", other),
    }
}

#[test]
fn a_file_reference_is_attached() {
    let cargo = "1\n2\n3\n4\n5\n6\n7\n8\n9\n10\n11\n12\n";
    let mut app = new_app();
    type_line(&mut app, "@Cargo.toml what does this do?");
    match app.submit_needs() {
        SubmitNeed::Files(paths) => assert_eq!(paths, vec!["Cargo.toml"]),
        other => panic!("{:?}", other),
    }
    let probes =
        vec![FileProbe { path: "Cargo.toml".to_string(), content: Some(cargo.to_string()) }];
    let effect = app.submit_input(Supply::Files(probes), 1);
    assert!(matches!(effect, Effect::CallModel));
    let wire = app.api_messages[1].content.clone().unwrap();
    assert!(wire.starts_with("`Cargo.toml` what does this do?\n\n<file path=\"Cargo.toml\">\n"));
    assert!(wire.ends_with("\n</file>"));
    assert_eq!(wire.matches("<file path=").count(), 1);
    assert_eq!(app.messages.len(), 2);
    assert!(matches!(app.messages[0].role, MessageRole::User));
    assert_eq!(app.messages[0].content, "@Cargo.toml what does this do?");
    match &app.messages[1].role {
        MessageRole::Tool { name, path } => {
            assert_eq!(name, "read_file");
            assert_eq!(path.as_deref(), Some("Cargo.toml"));
        }
        other => panic!("{:?}", other),
    }
    assert_eq!(app.messages[1].content, "\n".repeat(12));
}

#[test]
fn two_tool_calls_run_in_order() {
    let mut app = new_app();
    type_line(&mut app, "read both");
    app.submit_input(Supply::Files(vec![]), 1);
    let raw_a = call("call_a", "read_file", "{\"path\":\"a\"}");
    let raw_b = call("call_b", "read_file", "{\"path\":\"b\"}");
    let effect = app.poll_api_response(calls(vec![raw_a.clone(), raw_b.clone()]), &env());
    check(&app);
    match effect {
        Effect::RunTool { call, allowed_paths } => {
            assert_eq!(call.id, "call_a");
            assert_eq!(call.name, "read_file");
            assert_eq!(call.arguments, "{\"path\":\"a\"}");
            assert!(allowed_paths.is_empty());
        }
        other => panic!("{:?}", other),
    }
    assert!(matches!(app.state, AppState::ToolCall(ref l) if l == "read a"));
    assert_eq!(app.pending_tool_calls.len(), 1);
    assert_eq!(app.api_messages.len(), 3);
    assert_eq!(app.api_messages[2].tool_calls, Some(vec![raw_a, raw_b]));
    assert_eq!(app.api_messages[2].content, None);

    // The model is not polled while a tool runs.
    assert!(matches!(app.poll_api_response(answer("early"), &env()), Effect::Nothing));
    assert!(matches!(app.poll_tool_result(ToolPoll::Waiting, &env()), Effect::Nothing));
    assert_eq!(app.api_messages.len(), 3);

    let effect = app.poll_tool_result(ToolPoll::Finished("content of a".to_string()), &env());
    check(&app);
    assert!(matches!(effect, Effect::RunTool { ref call, .. } if call.id == "call_b"));
    assert!(matches!(app.state, AppState::ToolCall(ref l) if l == "read b"));
    assert!(!matches!(app.state, AppState::Idle));

    let effect = app.poll_tool_result(ToolPoll::Finished("content of b".to_string()), &env());
    check(&app);
    assert!(matches!(effect, Effect::CallModel));
    assert!(matches!(app.state, AppState::Thinking));

    let effect = app.poll_api_response(answer("both read"), &env());
    check(&app);
    assert!(matches!(effect, Effect::SaveSession(_)));
    assert!(matches!(app.state, AppState::Idle));

    let roles: Vec<WireRole> = app.api_messages.iter().map(|m| m.role).collect();
    assert_eq!(
        roles,
        vec![
            WireRole::System,
            WireRole::User,
            WireRole::Assistant,
            WireRole::Tool,
            WireRole::Tool,
            WireRole::Assistant
        ]
    );
    assert_eq!(tool_ids(&app), vec!["call_a", "call_b"]);
    assert_eq!(app.api_messages[3].content.as_deref(), Some("content of a"));
    assert_eq!(app.api_messages[4].content.as_deref(), Some("content of b"));
    assert_eq!(app.api_messages[5].content.as_deref(), Some("both read"));
    // Every call has exactly one result.
    for id in ["call_a", "call_b"] {
        assert_eq!(tool_ids(&app).iter().filter(|i| i.as_str() == id).count(), 1);
    }
    // The transcript shows the results in order.
    match &app.messages[1].role {
        MessageRole::Tool { name, path } => {
            assert_eq!(name, "read_file");
            assert_eq!(path.as_deref(), Some("a"));
        }
        other => panic!("{:?}", other),
    }
    assert_eq!(app.messages[1].content, "content of a");
    assert_eq!(app.messages[2].content, "content of b");
}

#[test]
fn a_denied_command_is_answered_with_a_refusal() {
    let mut app = new_app();
    type_line(&mut app, "build it");
    app.submit_input(Supply::Files(vec![]), 1);
    let raw = call("call_1", "bash", "{\"command\":\"cargo build\"}");
    let effect = app.poll_api_response(calls(vec![raw]), &env());
    check(&app);
    assert!(matches!(effect, Effect::Nothing));
    assert!(app.has_modal());
    let modal = app.permission_modal.as_ref().unwrap();
    assert_eq!(modal.path, "/home/u/.cargo");
    assert_eq!(modal.reason, "Cargo needs access to ~/.cargo for toolchain and crates");
    assert_eq!(modal.options, vec!["Allow for project", "Allow globally", "Allow once", "Deny"]);
    assert_eq!(modal.selected, 0);
    assert_eq!(modal.pending_tool_id, "call_1");
    // The call stays in the queue while the question is shown.
    assert_eq!(app.pending_tool_calls.len(), 1);
    assert!(matches!(app.state, AppState::Thinking));

    app.modal_down();
    app.modal_down();
    app.modal_down();
    app.modal_down();
    assert_eq!(app.permission_modal.as_ref().unwrap().selected, 3);
    let effect = app.modal_select(&env());
    check(&app);
    assert!(matches!(effect, Effect::CallModel));
    assert!(!app.has_modal());
    assert!(matches!(app.state, AppState::Thinking));
    let last = app.api_messages.last().unwrap();
    assert_eq!(last.role, WireRole::Tool);
    assert_eq!(last.tool_call_id.as_deref(), Some("call_1"));
    assert_eq!(
        last.content.as_deref(),
        Some("Permission denied: access to /home/u/.cargo was not granted")
    );
    let shown = app.messages.last().unwrap();
    assert_eq!(shown.content, "Permission denied: access to /home/u/.cargo was not granted");
    assert!(matches!(&shown.role, MessageRole::Tool { name, path } if name == "bash" && path.is_none()));
}

#[test]
fn escape_denies_the_question() {
    let mut app = new_app();
    type_line(&mut app, "build it");
    app.submit_input(Supply::Files(vec![]), 1);
    let raws = vec![
        call("c1", "bash", "{\"command\":\"git status\"}"),
        call("c2", "read_file", "{\"path\":\"x\"}"),
    ];
    app.poll_api_response(calls(raws), &env());
    assert_eq!(app.permission_modal.as_ref().unwrap().path, "/home/u/.gitconfig");
    let esc = Key { code: KeyCode::Esc, control: false, other_modifiers: false };
    let effect = handle_key(&mut app, esc, Supply::Nothing, &env());
    check(&app);
    // The next call runs.
    assert!(matches!(effect, Effect::RunTool { ref call, .. } if call.id == "c2"));
    assert_eq!(tool_ids(&app), vec!["c1"]);
}

#[test]
fn allowing_once_asks_for_the_next_path() {
    let mut app = new_app();
    type_line(&mut app, "build it");
    app.submit_input(Supply::Files(vec![]), 1);
    app.poll_api_response(calls(vec![call("c1", "bash", "{\"command\":\"cargo build\"}")]), &env());
    app.modal_down();
    app.modal_down();
    let effect = app.modal_select(&env());
    check(&app);
    assert!(matches!(effect, Effect::Nothing));
    assert_eq!(app.temp_allowed_paths, vec!["/home/u/.cargo"]);
    assert_eq!(app.permission_modal.as_ref().unwrap().path, "/home/u/.rustup");
    app.modal_down();
    app.modal_down();
    app.modal_up();
    app.modal_down();
    let effect = app.modal_select(&env());
    check(&app);
    match effect {
        Effect::RunTool { call, allowed_paths } => {
            assert_eq!(call.id, "c1");
            assert_eq!(allowed_paths, vec!["/home/u/.cargo", "/home/u/.rustup"]);
        }
        other => panic!("{:?}", other),
    }
    assert!(matches!(app.state, AppState::ToolCall(ref l) if l == "$ cargo build"));
}

#[test]
fn allowing_for_the_project_stores_the_path_first() {
    let mut app = new_app();
    type_line(&mut app, "build it");
    app.submit_input(Supply::Files(vec![]), 1);
    app.poll_api_response(calls(vec![call("c1", "bash", "{\"command\":\"brew list\"}")]), &env());
    assert_eq!(app.permission_modal.as_ref().unwrap().path, "/opt/homebrew");
    let effect = app.modal_select(&env());
    check(&app);
    assert!(matches!(effect, Effect::GrantProject(ref p) if p == "/opt/homebrew"));
    assert!(!app.has_modal());
    // The stored allow-list now covers the first path, and the second is asked for.
    let mut after = env();
    after.sandbox.allowed_paths.push("/opt/homebrew".to_string());
    let effect = app.permission_stored(Ok(()), &after);
    check(&app);
    assert!(matches!(effect, Effect::Nothing));
    assert_eq!(app.permission_modal.as_ref().unwrap().path, "/usr/local");
    app.modal_down();
    let effect = app.modal_select(&env());
    assert!(matches!(effect, Effect::GrantGlobal(ref p) if p == "/usr/local"));
    // Storing failed: the error is shown and the path is asked for again.
    let effect = app.permission_stored(Err("read-only".to_string()), &after);
    check(&app);
    assert!(matches!(effect, Effect::Nothing));
    assert_eq!(app.error.as_deref(), Some("Failed to save: read-only"));
    assert_eq!(app.permission_modal.as_ref().unwrap().path, "/usr/local");
}

#[test]
fn a_covered_path_is_not_asked_for() {
    let mut app = new_app();
    type_line(&mut app, "build it");
    app.submit_input(Supply::Files(vec![]), 1);
    let mut e = env();
    e.sandbox.allowed_paths = vec!["/home/u".to_string()];
    let effect = app.poll_api_response(calls(vec![call("c1", "bash", "{\"command\":\"cargo build\"}")]), &e);
    assert!(matches!(effect, Effect::RunTool { ref allowed_paths, .. } if allowed_paths == &vec!["/home/u".to_string()]));
    assert!(!app.has_modal());
}

#[test]
fn escape_aborts_the_request() {
    let mut app = new_app();
    type_line(&mut app, "hello");
    app.submit_input(Supply::Files(vec![]), 1);
    let esc = Key { code: KeyCode::Esc, control: false, other_modifiers: false };
    let effect = handle_key(&mut app, esc, Supply::Nothing, &env());
    check(&app);
    assert!(matches!(effect, Effect::Nothing));
    assert!(app.cancel_flag);
    assert!(matches!(app.state, AppState::Idle));
    assert_eq!(app.messages.last().unwrap().content, "*Request aborted*");
    assert!(matches!(app.messages.last().unwrap().role, MessageRole::Assistant));
    let wire_before = app.api_messages.len();
    let shown_before = app.messages.len();
    // A reply that still arrives is discarded.
    let effect = app.poll_api_response(answer("too late"), &env());
    check(&app);
    assert!(matches!(effect, Effect::Nothing));
    assert!(matches!(app.state, AppState::Idle));
    assert_eq!(app.api_messages.len(), wire_before);
    assert_eq!(app.messages.len(), shown_before);
    // So is the result of a tool.
    assert!(matches!(app.poll_tool_result(ToolPoll::Finished("x".to_string()), &env()), Effect::Nothing));
    assert_eq!(app.messages.len(), shown_before);
    // Aborting an idle agent does nothing.
    app.abort_request();
    assert_eq!(app.messages.len(), shown_before);
    // The next message starts a new request.
    type_line(&mut app, "again");
    assert!(matches!(app.submit_input(Supply::Files(vec![]), 2), Effect::CallModel));
    assert!(!app.cancel_flag);
}

#[test]
fn aborting_clears_the_queue_and_the_running_tool() {
    let mut app = new_app();
    type_line(&mut app, "go");
    app.submit_input(Supply::Files(vec![]), 1);
    app.poll_api_response(
        calls(vec![call("a", "read_file", "{\"path\":\"a\"}"), call("b", "list_dir", "{}")]),
        &env(),
    );
    assert!(app.pending_tool_execution.is_some());
    app.abort_request();
    check(&app);
    assert!(app.pending_tool_calls.is_empty());
    assert!(app.pending_tool_execution.is_none());
}

#[test]
fn clear_starts_a_new_session() {
    let mut app = new_app();
    type_line(&mut app, "hello");
    app.submit_input(Supply::Files(vec![]), 1);
    app.poll_api_response(answer("hi"), &env());
    assert_eq!(app.token_usage, Some((10, 5)));
    type_line(&mut app, "/clear");
    assert!(matches!(app.submit_needs(), SubmitNeed::Nothing));
    let effect = app.submit_input(Supply::Nothing, 1_700_000_500);
    check(&app);
    match effect {
        Effect::SaveSession(s) => {
            assert_eq!(s.id, "1700000000");
            assert_eq!(s.messages.len(), 2);
            assert_eq!(s.updated_at, 1_700_000_500);
        }
        other => panic!("{:?}", other),
    }
    assert!(app.messages.is_empty());
    assert_eq!(app.api_messages.len(), 1);
    assert_eq!(app.api_messages[0].role, WireRole::System);
    assert_eq!(app.token_usage, None);
    assert_eq!(app.session.id, "1700000500");
    assert_eq!(app.session.created_at, 1_700_000_500);
    assert!(app.session.messages.is_empty());
    assert_eq!(app.editor.input, "");
}

#[test]
fn clearing_an_empty_conversation_saves_nothing() {
    let mut app = new_app();
    type_line(&mut app, "/clear");
    assert!(matches!(app.submit_input(Supply::Nothing, 5), Effect::Nothing));
    assert_eq!(app.session.id, "5");
}

#[test]
fn a_failed_request_takes_the_message_back() {
    let mut app = new_app();
    type_line(&mut app, "hello");
    app.submit_input(Supply::Files(vec![]), 1);
    let effect = app.poll_api_response(ModelPoll::Reply(Err("401: bad key".to_string())), &env());
    check(&app);
    assert!(matches!(effect, Effect::Nothing));
    assert_eq!(app.error.as_deref(), Some("API error: 401: bad key"));
    assert_eq!(app.api_messages.len(), 1);
    assert_eq!(app.messages.len(), 1);
}

#[test]
fn a_request_that_fails_after_a_tool_takes_the_whole_turn_back() {
    let mut app = new_app();
    type_line(&mut app, "first");
    app.submit_input(Supply::Files(vec![]), 1);
    app.poll_api_response(answer("done"), &env());
    assert_eq!(app.api_messages.len(), 3);

    type_line(&mut app, "second");
    app.submit_input(Supply::Files(vec![]), 2);
    app.poll_api_response(calls(vec![call("c1", "read_file", "{\"path\":\"a\"}")]), &env());
    app.poll_tool_result(ToolPoll::Finished("content".to_string()), &env());
    assert_eq!(app.api_messages.len(), 6);
    let effect = app.poll_api_response(ModelPoll::Reply(Err("500: down".to_string())), &env());
    check(&app);
    assert!(matches!(effect, Effect::Nothing));
    assert!(matches!(app.state, AppState::Idle));
    assert_eq!(app.error.as_deref(), Some("API error: 500: down"));
    // The earlier turn stays; of the failed one nothing is left in the wire
    // log, so that no call stands there without its result.
    assert_eq!(app.api_messages.len(), 3);
    assert_eq!(app.api_messages[2].content.as_deref(), Some("done"));
    assert!(tool_ids(&app).is_empty());
    // The transcript keeps what was shown.
    assert_eq!(app.messages.len(), 4);
    // Sending again starts cleanly.
    type_line(&mut app, "second");
    assert!(matches!(app.submit_input(Supply::Files(vec![]), 3), Effect::CallModel));
    assert_eq!(app.api_messages.len(), 4);
    assert_eq!(app.api_messages[3].role, WireRole::User);
}

#[test]
fn a_worker_that_is_gone_ends_the_turn() {
    let mut app = new_app();
    type_line(&mut app, "hello");
    app.submit_input(Supply::Files(vec![]), 1);
    app.poll_api_response(ModelPoll::Disconnected, &env());
    check(&app);
    assert_eq!(app.error.as_deref(), Some("API thread crashed"));
    assert!(matches!(app.state, AppState::Idle));

    type_line(&mut app, "again");
    app.submit_input(Supply::Files(vec![]), 1);
    app.poll_api_response(
        calls(vec![call("a", "read_file", "{\"path\":\"a\"}"), call("b", "list_dir", "{}")]),
        &env(),
    );
    app.poll_tool_result(ToolPoll::Disconnected, &env());
    check(&app);
    assert_eq!(app.error.as_deref(), Some("Tool execution thread crashed"));
    assert!(matches!(app.state, AppState::Idle));
    assert!(app.pending_tool_calls.is_empty());
}

#[test]
fn an_empty_batch_goes_straight_back_to_the_model() {
    let mut app = new_app();
    type_line(&mut app, "hello");
    app.submit_input(Supply::Files(vec![]), 1);
    let effect = app.poll_api_response(calls(vec![]), &env());
    check(&app);
    assert!(matches!(effect, Effect::CallModel));
    assert!(matches!(app.state, AppState::Thinking));
}

#[test]
fn calls_without_fields_get_defaults() {
    let mut app = new_app();
    type_line(&mut app, "hello");
    app.submit_input(Supply::Files(vec![]), 1);
    let effect = app.poll_api_response(calls(vec!["{}".to_string()]), &env());
    match effect {
        Effect::RunTool { call, .. } => {
            assert_eq!(call.id, "");
            assert_eq!(call.name, "");
            assert_eq!(call.arguments, "{}");
        }
        other => panic!("{:?}", other),
    }
}

#[test]
fn nothing_is_submitted_while_busy() {
    let mut app = new_app();
    type_line(&mut app, "hello");
    app.submit_input(Supply::Files(vec![]), 1);
    type_line(&mut app, "more");
    assert!(matches!(app.submit_needs(), SubmitNeed::Nothing));
    assert!(matches!(app.submit_input(Supply::Files(vec![]), 2), Effect::Nothing));
    assert_eq!(app.api_messages.len(), 2);
    assert_eq!(app.editor.input, "more");
    let enter = Key { code: KeyCode::Enter, control: false, other_modifiers: false };
    assert!(matches!(handle_key(&mut app, enter, Supply::Files(vec![]), &env()), Effect::Nothing));
    assert_eq!(app.api_messages.len(), 2);
}

#[test]
fn a_blank_line_does_nothing() {
    let mut app = new_app();
    type_line(&mut app, "   ");
    assert!(matches!(app.submit_input(Supply::Nothing, 1), Effect::Nothing));
    assert_eq!(app.editor.input, "   ");
    assert!(app.messages.is_empty());
}

#[test]
fn quit_saves_and_asks_to_leave() {
    let mut app = new_app();
    for line in ["/quit", "/exit", "/q"] {
        app.should_quit = false;
        type_line(&mut app, line);
        assert!(matches!(app.submit_input(Supply::Nothing, 1), Effect::Nothing));
        assert!(app.should_quit);
    }
    let mut app = new_app();
    type_line(&mut app, "hello");
    app.submit_input(Supply::Files(vec![]), 1);
    app.poll_api_response(answer("hi"), &env());
    type_line(&mut app, "/quit");
    assert!(matches!(app.submit_input(Supply::Nothing, 9), Effect::SaveSession(_)));
    assert!(app.should_quit);
}

#[test]
fn help_and_the_lists_are_notes() {
    let mut app = new_app();
    type_line(&mut app, "/help");
    assert!(matches!(app.submit_input(Supply::Nothing, 1), Effect::Nothing));
    assert!(app.messages[0].content.starts_with("**Commands:**\n- `/clear` - Save and start new session"));
    assert!(app.messages[0].content.ends_with("- `Ctrl+U/D` - Scroll chat history"));
    assert_eq!(app.api_messages.len(), 1);
    assert_eq!(app.editor.input, "");

    type_line(&mut app, "/provider");
    app.submit_input(Supply::Nothing, 1);
    assert_eq!(
        app.messages[1].content,
        "**Providers:**\n- **gemini** (active)\n- openai\n\nSwitch with `/provider <name>`"
    );

    type_line(&mut app, "/sessions");
    assert!(matches!(app.submit_needs(), SubmitNeed::Sessions));
    app.submit_input(Supply::Sessions(vec![]), 1);
    assert_eq!(app.messages[2].content, "No saved sessions.");

    let mut old = Session::new(86_400);
    old.title = "older".to_string();
    let mut newer = Session::new(90_000);
    newer.updated_at = 1_431_648_000;
    type_line(&mut app, "/sessions");
    app.submit_input(Supply::Sessions(vec![old, newer]), 1);
    assert_eq!(
        app.messages[3].content,
        "**Saved sessions:**\n**90000** - (untitled) (2015-05-15 00:00)\n**86400** - older (1970-01-02 00:00)"
    );
    assert_eq!(app.api_messages.len(), 1);
}

#[test]
fn switching_the_provider_needs_a_key() {
    let mut app = new_app();
    type_line(&mut app, "/provider openai");
    match app.submit_needs() {
        SubmitNeed::Key(var) => assert_eq!(var, "HAL_API_KEY_OPENAI"),
        other => panic!("{:?}", other),
    }
    assert!(matches!(app.submit_input(Supply::Key(None), 1), Effect::Nothing));
    assert_eq!(
        app.messages[0].content,
        "No API key for **openai**. Set it with `/key <key>` after switching, or set $HAL_API_KEY_OPENAI"
    );
    assert_eq!(app.config.default_provider, "gemini");

    type_line(&mut app, "/provider openai");
    assert!(matches!(app.submit_input(Supply::Key(Some("sk".to_string())), 1), Effect::SaveConfig));
    assert_eq!(app.messages[1].content, "Switched to **openai** (gpt-4o)");
    assert_eq!(app.config.default_provider, "openai");
    assert_eq!(app.provider.model, "gpt-4o");
    assert_eq!(app.api_key, "sk");

    type_line(&mut app, "/provider nobody");
    assert!(matches!(app.submit_needs(), SubmitNeed::Nothing));
    assert!(matches!(app.submit_input(Supply::Nothing, 1), Effect::Nothing));
    assert_eq!(app.messages[2].content, "Unknown provider: nobody");
}

#[test]
fn a_key_is_stored_with_the_provider_in_use() {
    let mut app = new_app();
    type_line(&mut app, "/key  abc123 ");
    assert!(matches!(app.submit_input(Supply::Nothing, 1), Effect::SaveConfig));
    assert_eq!(app.api_key, "abc123");
    assert_eq!(app.provider.api_key.as_deref(), Some("abc123"));
    assert_eq!(app.config.providers[0].provider.api_key.as_deref(), Some("abc123"));
    assert_eq!(app.config.providers[1].provider.api_key, None);
    assert_eq!(app.messages[0].content, "API key updated for **gemini**");
}

#[test]
fn a_session_is_loaded_in_place_of_the_conversation() {
    let mut donor = new_app();
    type_line(&mut donor, "stored question");
    donor.submit_input(Supply::Files(vec![]), 1);
    let stored = match donor.poll_api_response(answer("stored answer"), &env()) {
        Effect::SaveSession(s) => s,
        other => panic!("{:?}", other),
    };

    let mut app =
        App::new(Config::default(), None, Some("k".to_string()), Some("ctx".to_string()), 7).unwrap();
    type_line(&mut app, "/load 1700000000");
    match app.submit_needs() {
        SubmitNeed::Session(id) => assert_eq!(id, "1700000000"),
        other => panic!("{:?}", other),
    }
    let effect = app.submit_input(Supply::Loaded(Ok(stored)), 8);
    check(&app);
    assert!(matches!(effect, Effect::Nothing));
    assert_eq!(app.messages.len(), 2);
    assert_eq!(app.messages[0].content, "stored question");
    assert_eq!(app.api_messages.len(), 3);
    // The system prompt is the current one, not the stored one.
    assert!(app.api_messages[0].content.as_ref().unwrap().ends_with("ctx"));
    assert_eq!(app.api_messages[1].content.as_deref(), Some("stored question"));
    assert_eq!(app.session.id, "1700000000");
    assert_eq!(app.session.title, "stored question");

    type_line(&mut app, "/load nothing");
    let effect = app.submit_input(Supply::Loaded(Err("No such file".to_string())), 9);
    assert!(matches!(effect, Effect::Nothing));
    assert_eq!(app.error.as_deref(), Some("Failed to load session: No such file"));
    assert_eq!(app.messages.len(), 2);
}

#[test]
fn a_stored_session_is_taken_up_at_the_start() {
    let mut donor = new_app();
    type_line(&mut donor, "q");
    donor.submit_input(Supply::Files(vec![]), 1);
    let stored = match donor.poll_api_response(answer("a"), &env()) {
        Effect::SaveSession(s) => s,
        other => panic!("{:?}", other),
    };
    let app = App::new(Config::default(), Some(stored), Some("k".to_string()), None, 99).unwrap();
    check(&app);
    assert_eq!(app.messages.len(), 2);
    assert_eq!(app.api_messages.len(), 3);
    assert_eq!(app.session.id, "1700000000");
    assert_eq!(app.session.updated_at, 99);
    assert_eq!(app.session.created_at, 1_700_000_000);
}

#[test]
fn the_same_line_is_kept_once_in_the_history() {
    let mut app = new_app();
    for line in ["one", "one", "two", "one"] {
        type_line(&mut app, line);
        app.submit_input(Supply::Files(vec![]), 1);
        app.poll_api_response(answer("ok"), &env());
    }
    assert_eq!(app.editor.history, vec!["one", "two", "one"]);
    assert_eq!(app.editor.history_pos, 3);
}

#[test]
fn keys_do_what_the_screen_says() {
    let key = |code| Key { code, control: false, other_modifiers: false };
    let mut app = new_app();
    for c in "hi".chars() {
        handle_key(&mut app, key(KeyCode::Char(c)), Supply::Nothing, &env());
    }
    assert_eq!(app.editor.input, "hi");
    handle_key(&mut app, key(KeyCode::Left), Supply::Nothing, &env());
    handle_key(&mut app, key(KeyCode::Backspace), Supply::Nothing, &env());
    assert_eq!(app.editor.input, "i");
    handle_key(&mut app, key(KeyCode::Right), Supply::Nothing, &env());
    assert_eq!(app.editor.input_cursor, 1);
    handle_key(&mut app, key(KeyCode::PageUp), Supply::Nothing, &env());
    assert_eq!(app.scroll_offset, 3);
    handle_key(
        &mut app,
        Key { code: KeyCode::Char('u'), control: true, other_modifiers: false },
        Supply::Nothing,
        &env(),
    );
    assert_eq!(app.scroll_offset, 6);
    handle_key(&mut app, key(KeyCode::PageDown), Supply::Nothing, &env());
    assert_eq!(app.scroll_offset, 3);
    // A character with the control key held is not typed.
    handle_key(
        &mut app,
        Key { code: KeyCode::Char('x'), control: true, other_modifiers: false },
        Supply::Nothing,
        &env(),
    );
    assert_eq!(app.editor.input, "i");
    handle_key(&mut app, key(KeyCode::Esc), Supply::Nothing, &env());
    assert_eq!(app.editor.input, "");
    app.error = Some("old".to_string());
    handle_event(&mut app, Event::Key(key(KeyCode::Other)), Supply::Nothing, &env());
    assert_eq!(app.error, None);
    handle_event(&mut app, Event::Paste("a\nb".to_string()), Supply::Nothing, &env());
    assert_eq!(app.editor.input, "a b");
    handle_event(&mut app, Event::ScrollUp, Supply::Nothing, &env());
    assert_eq!(app.scroll_offset, 6);
    handle_event(&mut app, Event::ScrollDown, Supply::Nothing, &env());
    handle_event(&mut app, Event::ScrollDown, Supply::Nothing, &env());
    handle_event(&mut app, Event::ScrollDown, Supply::Nothing, &env());
    assert_eq!(app.scroll_offset, 0);
    assert!(!app.should_quit);
    handle_key(
        &mut app,
        Key { code: KeyCode::Char('c'), control: true, other_modifiers: false },
        Supply::Nothing,
        &env(),
    );
    assert!(app.should_quit);
    app.should_quit = false;
    handle_key(
        &mut app,
        Key { code: KeyCode::Char('d'), control: true, other_modifiers: true },
        Supply::Nothing,
        &env(),
    );
    assert!(!app.should_quit);
}

#[test]
fn enter_submits_or_accepts() {
    let enter = Key { code: KeyCode::Enter, control: false, other_modifiers: false };
    let tab = Key { code: KeyCode::Tab, control: false, other_modifiers: false };
    let mut app = new_app();
    app.insert_char('/');
    app.insert_char('c');
    assert!(app.picker_active());
    assert!(matches!(handle_key(&mut app, enter, Supply::Nothing, &env()), Effect::Nothing));
    assert_eq!(app.editor.input, "/clear");
    assert!(!app.picker_active());
    handle_key(&mut app, tab, Supply::Nothing, &env());
    assert_eq!(app.editor.input, "/clear");
    app.editor.clear_input();
    for c in "hello".chars() {
        app.insert_char(c);
    }
    assert!(matches!(handle_key(&mut app, enter, Supply::Files(vec![]), &env()), Effect::CallModel));
}

#[test]
fn the_invariant_holds_along_a_long_run() {
    let mut app = new_app();
    let e = env();
    check(&app);
    type_line(&mut app, "one");
    app.submit_input(Supply::Files(vec![]), 1);
    check(&app);
    app.poll_api_response(
        calls(vec![
            call("1", "bash", "{\"command\":\"npm test\"}"),
            call("2", "grep", "{\"pattern\":\"x\"}"),
            call("3", "bash", "{\"command\":\"echo hi\"}"),
        ]),
        &e,
    );
    check(&app);
    assert!(app.has_modal());
    app.modal_cancel(&e);
    check(&app);
    assert!(matches!(app.state, AppState::ToolCall(ref l) if l == "grep"));
    app.poll_tool_result(ToolPoll::Finished("r2".to_string()), &e);
    check(&app);
    assert!(matches!(app.state, AppState::ToolCall(ref l) if l == "$ echo hi"));
    let effect = app.poll_tool_result(ToolPoll::Finished("r3".to_string()), &e);
    check(&app);
    assert!(matches!(effect, Effect::CallModel));
    assert_eq!(tool_ids(&app), vec!["1", "2", "3"]);
    app.poll_api_response(calls(vec![call("4", "list_dir", "{}")]), &e);
    check(&app);
    app.poll_tool_result(ToolPoll::Finished("r4".to_string()), &e);
    check(&app);
    app.poll_api_response(answer("done"), &e);
    check(&app);
    assert!(matches!(app.state, AppState::Idle));
    assert_eq!(tool_ids(&app), vec!["1", "2", "3", "4"]);
}
