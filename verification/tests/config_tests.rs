use hal::api::{bearer, chat, chat_url, report_refusal, ApiResponse, HttpReply, Usage};
use hal::cli::{
    needs_setup, parse_args, parse_number, print_help, self_update, setup_choice, setup_key,
    setup_order, unknown_argument, SessionChoice, Stop, UpdatePlan,
};
use hal::command::{parse_command, Command};
use hal::config::{Config, Mode, Provider, ProviderEntry, StoredConfig};
use hal::journal::{ChatMessage, WireMessage, WireRole};
use hal::labels::{build_system_prompt, format_tool_call, get_system_prompt};
use hal::sandbox::{get_allowed_paths, global_config_path, project_config_path, SandboxConfig};
use hal::session::{
    get_latest_session, list_sessions, session_file, session_title, sessions_dir, title_from,
    Session,
};
use hal::toolspec::get_tool_definitions;

fn args(v: &[&str]) -> Vec<String> {
    v.iter().map(|s| s.to_string()).collect()
}

#[test]
fn the_built_in_configuration_uses_gemini() {
    let c = Config::default();
    assert_eq!(c.default_provider, "gemini");
    assert_eq!(c.mode, Mode::Coding);
    assert_eq!(c.providers.len(), 2);
    assert_eq!(c.providers[0].name, "gemini");
    assert_eq!(
        c.providers[0].provider.base_url,
        "https://generativelanguage.googleapis.com/v1beta/openai"
    );
    assert_eq!(c.providers[0].provider.model, "gemini-3-flash-preview");
    assert_eq!(c.providers[0].provider.api_key_env, "HAL_API_KEY_GEMINI");
    assert_eq!(c.providers[0].provider.api_key, None);
    assert_eq!(c.providers[1].name, "openai");
    assert_eq!(c.providers[1].provider.base_url, "https://api.openai.com/v1");
    assert_eq!(c.providers[1].provider.model, "gpt-4o");
    assert_eq!(c.providers[1].provider.api_key_env, "HAL_API_KEY_OPENAI");
}

#[test]
fn the_provider_in_use_is_found_by_name() {
    let mut c = Config::default();
    assert_eq!(c.get_provider().unwrap().model, "gemini-3-flash-preview");
    c.default_provider = "openai".to_string();
    assert_eq!(c.get_provider().unwrap().model, "gpt-4o");
    c.default_provider = "nobody".to_string();
    assert!(c.get_provider().is_none());
    assert_eq!(c.find("openai"), Some(1));
    assert_eq!(c.find("x"), None);
    assert!(c.provider_named("gemini").is_some());
    // Of two providers under one name the first counts.
    c.providers.push(ProviderEntry {
        name: "gemini".to_string(),
        provider: Provider {
            base_url: "u".to_string(),
            model: "second".to_string(),
            api_key_env: "E".to_string(),
            api_key: None,
        },
    });
    assert_eq!(c.provider_named("gemini").unwrap().model, "gemini-3-flash-preview");
}

#[test]
fn a_missing_configuration_is_replaced_by_the_built_in_one() {
    assert_eq!(Config::config_path(Some("/cfg")), "/cfg/hal/config.json");
    assert_eq!(Config::config_path(None), "./hal/config.json");
    let l = Config::load("/cfg/hal/config.json", StoredConfig::Missing);
    assert!(l.store);
    assert!(l.warnings.is_empty());
    assert_eq!(l.config.default_provider, "gemini");
    let l = Config::load("/c", StoredConfig::Unreadable("denied".to_string()));
    assert!(l.store);
    assert_eq!(
        l.warnings,
        vec!["Warning: Failed to read config at /c: denied", "Using default configuration."]
    );
    let l = Config::load("/c", StoredConfig::Unparsable("bad json".to_string()));
    assert_eq!(l.warnings[0], "Warning: Failed to parse config at /c: bad json");
    let mut mine = Config::default();
    mine.default_provider = "openai".to_string();
    let l = Config::load("/c", StoredConfig::Parsed(mine));
    assert!(!l.store);
    assert!(l.warnings.is_empty());
    assert_eq!(l.config.default_provider, "openai");
}

#[test]
fn the_sandbox_files_have_their_places() {
    assert_eq!(global_config_path(Some("/home/u/.config")), "/home/u/.config/hal/sandbox.json");
    assert_eq!(global_config_path(Some("/home/u/.config/")), "/home/u/.config/hal/sandbox.json");
    assert_eq!(global_config_path(None), "./hal/sandbox.json");
    assert_eq!(project_config_path(), ".hal/sandbox.json");
    assert_eq!(SandboxConfig::default().allowed_paths.len(), 0);
    let mut all = get_allowed_paths(
        SandboxConfig { allowed_paths: vec!["/b".to_string()] },
        SandboxConfig { allowed_paths: vec!["/a".to_string(), "/b".to_string()] },
    );
    all.sort();
    assert_eq!(all, vec!["/a", "/b"]);
}

#[test]
fn a_session_starts_at_its_time() {
    let s = Session::new(1_700_000_000);
    assert_eq!(s.id, "1700000000");
    assert_eq!(s.created_at, 1_700_000_000);
    assert_eq!(s.updated_at, 1_700_000_000);
    assert_eq!(s.title, "");
    assert!(s.messages.is_empty());
    assert!(s.api_messages.is_empty());
    assert_eq!(Session::new(-5).id, "-5");
    let mut s = Session::new(3);
    s.messages.push(ChatMessage::user("u"));
    s.api_messages.push(WireMessage::tool_result("id", "r"));
    let c = s.clone();
    assert_eq!(c.id, "3");
    assert_eq!(c.messages[0].content, "u");
    assert_eq!(c.api_messages[0].role, WireRole::Tool);
    assert_eq!(c.api_messages[0].tool_call_id.as_deref(), Some("id"));
}

#[test]
fn the_title_is_taken_from_the_first_message_of_the_user() {
    assert_eq!(title_from("short question"), "short question");
    assert_eq!(title_from(&"x".repeat(50)), "x".repeat(50));
    assert_eq!(title_from(&"x".repeat(51)), format!("{}...", "x".repeat(50)));
    // The first 50 characters are kept as they are, a space at the cut too.
    assert_eq!(
        title_from(&format!("{} {}", "x".repeat(49), "y".repeat(9))),
        format!("{} ...", "x".repeat(49))
    );
    assert_eq!(title_from(&format!("{} b", "a".repeat(49))), format!("{} ...", "a".repeat(49)));
    assert_eq!(title_from(&"é".repeat(51)), format!("{}...", "é".repeat(50)));
    assert_eq!(title_from(" padded "), " padded ");
    assert_eq!(title_from(""), "");
    let messages = vec![
        ChatMessage::assistant("note"),
        ChatMessage::tool("bash", None, "out"),
        ChatMessage::user("the question"),
        ChatMessage::user("another"),
    ];
    assert_eq!(session_title(&messages), "the question");
    assert_eq!(session_title(&vec![ChatMessage::assistant("note")]), "");
    assert_eq!(session_title(&vec![]), "");
}

#[test]
fn sessions_are_listed_newest_first() {
    let at = |id: i64, updated: i64| {
        let mut s = Session::new(id);
        s.updated_at = updated;
        s
    };
    let sorted = list_sessions(vec![at(1, 10), at(2, 30), at(3, 20), at(4, 30)]);
    let order: Vec<(String, i64)> = sorted.iter().map(|s| (s.id.clone(), s.updated_at)).collect();
    assert_eq!(
        order,
        vec![("2".to_string(), 30), ("4".to_string(), 30), ("3".to_string(), 20), ("1".to_string(), 10)]
    );
    assert!(list_sessions(vec![]).is_empty());
    assert_eq!(get_latest_session(vec![at(1, 10), at(2, 30), at(3, 20)]).unwrap().id, "2");
    assert!(get_latest_session(vec![]).is_none());
    assert_eq!(sessions_dir(Some("/cfg")), "/cfg/hal/sessions");
    assert_eq!(sessions_dir(None), "./hal/sessions");
    assert_eq!(session_file(Some("/cfg"), "1700000000"), "/cfg/hal/sessions/1700000000.json");
}

#[test]
fn lines_are_read_as_commands() {
    assert!(matches!(parse_command(""), Command::Empty));
    assert!(matches!(parse_command("  \t "), Command::Empty));
    assert!(matches!(parse_command("/quit"), Command::Quit));
    assert!(matches!(parse_command(" /exit "), Command::Quit));
    assert!(matches!(parse_command("/q"), Command::Quit));
    assert!(matches!(parse_command("/clear"), Command::Clear));
    assert!(matches!(parse_command("/sessions"), Command::Sessions));
    assert!(matches!(parse_command("/help"), Command::Help));
    assert!(matches!(parse_command("/provider"), Command::Providers));
    assert!(matches!(parse_command("/provider "), Command::Providers));
    assert!(matches!(parse_command("/provider  openai"), Command::SwitchProvider(ref n) if n == "openai"));
    assert!(matches!(parse_command("/key abc"), Command::SetKey(ref k) if k == "abc"));
    assert!(matches!(parse_command("/load 123 "), Command::Load(ref i) if i == "123"));
    // Commands that lack their argument are messages.
    assert!(matches!(parse_command("/key"), Command::Message(ref m) if m == "/key"));
    assert!(matches!(parse_command("/load"), Command::Message(ref m) if m == "/load"));
    assert!(matches!(parse_command("/quits"), Command::Message(ref m) if m == "/quits"));
    assert!(matches!(parse_command(" hello  world "), Command::Message(ref m) if m == "hello  world"));
}

#[test]
fn labels_say_what_a_tool_does() {
    assert_eq!(format_tool_call("read_file", "{\"path\":\"a.rs\"}"), "read a.rs");
    assert_eq!(format_tool_call("read_file", "{}"), "read ?");
    assert_eq!(format_tool_call("write_file", "{\"path\":\"a.rs\"}"), "write a.rs");
    assert_eq!(format_tool_call("list_dir", "{}"), "ls .");
    assert_eq!(format_tool_call("list_dir", "{\"path\":\"src\"}"), "ls src");
    assert_eq!(format_tool_call("search_files", "{\"pattern\":\"*.rs\"}"), "search *.rs in .");
    assert_eq!(format_tool_call("search_files", "{}"), "search * in .");
    assert_eq!(format_tool_call("bash", "{\"command\":\"ls\"}"), "$ ls");
    assert_eq!(format_tool_call("bash", "not json"), "$ ?");
    let long = "x".repeat(41);
    assert_eq!(
        format_tool_call("bash", &format!("{{\"command\":\"{}\"}}", long)),
        format!("$ {}...", "x".repeat(40))
    );
    let forty = "x".repeat(40);
    assert_eq!(
        format_tool_call("bash", &format!("{{\"command\":\"{}\"}}", forty)),
        format!("$ {}", forty)
    );
    assert_eq!(format_tool_call("view_projects", "{}"), "view projects");
    assert_eq!(format_tool_call("update_projects", "{}"), "update projects");
    assert_eq!(format_tool_call("edit_file", "{}"), "edit_file");
    assert_eq!(format_tool_call("grep", "{}"), "grep");
}

#[test]
fn each_mode_has_its_prompt_and_its_tools() {
    assert!(get_system_prompt(&Mode::Coding).starts_with("You are a coding agent with file access."));
    assert!(get_system_prompt(&Mode::Coach).starts_with("You are a productivity coach."));
    assert_eq!(build_system_prompt(&Mode::Coding, None), get_system_prompt(&Mode::Coding));
    assert_eq!(
        build_system_prompt(&Mode::Coding, Some("ctx")),
        format!("{}\n\n## Project Context\n\nctx", get_system_prompt(&Mode::Coding))
    );
    assert_eq!(build_system_prompt(&Mode::Coach, Some("ctx")), get_system_prompt(&Mode::Coach));
    let coding = get_tool_definitions(&Mode::Coding);
    let names: Vec<&str> = coding.iter().map(|d| d.name.as_str()).collect();
    assert_eq!(
        names,
        vec!["read_file", "write_file", "edit_file", "list_dir", "search_files", "grep", "bash"]
    );
    assert_eq!(coding[0].parameters.len(), 3);
    assert_eq!(coding[0].parameters[1].name, "start_line");
    assert_eq!(coding[0].parameters[1].kind, "integer");
    assert_eq!(coding[0].parameters[1].description, "Starting line number, 1-indexed (optional)");
    assert_eq!(coding[0].required, vec!["path"]);
    assert_eq!(coding[2].required, vec!["path", "old", "new"]);
    assert!(coding[3].required.is_empty());
    assert_eq!(coding[5].parameters[2].kind, "integer");
    assert_eq!(coding[6].description, "Run a bash command (sandboxed to current directory). Use for git, build tools, package managers, etc.");
    assert_eq!(coding[6].parameters[0].kind, "string");
    let coach = get_tool_definitions(&Mode::Coach);
    assert_eq!(coach.len(), 2);
    assert_eq!(coach[0].name, "view_projects");
    assert!(coach[0].parameters.is_empty());
    assert_eq!(coach[1].name, "update_projects");
    assert_eq!(coach[1].required, vec!["content"]);
}

#[test]
fn requests_go_to_the_chat_completions() {
    assert_eq!(chat_url("https://api.openai.com/v1"), "https://api.openai.com/v1/chat/completions");
    assert_eq!(chat_url("https://x/v1///"), "https://x/v1/chat/completions");
    assert_eq!(chat_url(""), "/chat/completions");
    assert_eq!(bearer("sk-1"), "Bearer sk-1");
}

#[test]
fn replies_of_the_server_are_told_apart() {
    assert_eq!(chat(HttpReply::Failed("timeout".to_string())).err(), Some("timeout".to_string()));
    assert_eq!(
        chat(HttpReply::Refused {
            status: 401,
            body: "{\"error\":{\"message\":\"bad key\",\"code\":1}}".to_string()
        })
        .err(),
        Some("401: bad key".to_string())
    );
    assert_eq!(
        chat(HttpReply::Refused { status: 500, body: "oops".to_string() }).err(),
        Some("500: oops".to_string())
    );
    assert_eq!(
        chat(HttpReply::Refused { status: 404, body: "{\"error\":\"gone\"}".to_string() }).err(),
        Some("404: {\"error\":\"gone\"}".to_string())
    );
    assert_eq!(report_refusal(429, "b", &Some("slow down".to_string())), "429: slow down");
    assert_eq!(
        chat(HttpReply::Unreadable("eof".to_string())).err(),
        Some("Failed to parse response: eof".to_string())
    );
    assert_eq!(
        chat(HttpReply::Answered { first_choice: None }).err(),
        Some("No response choices".to_string())
    );
    let r = chat(HttpReply::Answered {
        first_choice: Some(ApiResponse {
            content: Some("hi".to_string()),
            tool_calls: None,
            usage: Some(Usage { prompt_tokens: 1, completion_tokens: 2, total_tokens: 3 }),
        }),
    })
    .unwrap();
    assert_eq!(r.content.as_deref(), Some("hi"));
    assert_eq!(r.usage.unwrap().completion_tokens, 2);
}

#[test]
fn arguments_are_read_in_order() {
    let r = parse_args(&args(&["hal"]));
    assert!(!r.coach);
    assert_eq!(r.provider, None);
    assert!(matches!(r.session, SessionChoice::Fresh));
    assert!(matches!(r.stop, Stop::Run));
    let r = parse_args(&args(&["hal", "-c", "--model", "openai", "-r"]));
    assert!(r.coach);
    assert_eq!(r.provider.as_deref(), Some("openai"));
    assert!(matches!(r.session, SessionChoice::Latest));
    assert!(matches!(r.stop, Stop::Run));
    let r = parse_args(&args(&["hal", "--coach", "-m", "x", "--resume", "-s", "17", "--session", "18"]));
    assert!(matches!(r.session, SessionChoice::Id(ref i) if i == "18"));
    let r = parse_args(&args(&["hal", "-s"]));
    assert!(matches!(r.session, SessionChoice::Fresh));
    assert!(matches!(r.stop, Stop::Run));
    let r = parse_args(&args(&["hal", "-m"]));
    assert_eq!(r.provider, None);
    let r = parse_args(&args(&["hal", "-c", "--help", "bogus"]));
    assert!(r.coach);
    assert!(matches!(r.stop, Stop::Help));
    let r = parse_args(&args(&["hal", "-h"]));
    assert!(matches!(r.stop, Stop::Help));
    let r = parse_args(&args(&["hal", "update", "-c"]));
    assert!(!r.coach);
    assert!(matches!(r.stop, Stop::Update));
    let r = parse_args(&args(&["hal", "--bogus", "-c"]));
    assert!(matches!(r.stop, Stop::Unknown(ref a) if a == "--bogus"));
    assert_eq!(unknown_argument("--bogus"), "Unknown argument: --bogus");
    // The value of an option is not read as an option.
    let r = parse_args(&args(&["hal", "-m", "--help"]));
    assert_eq!(r.provider.as_deref(), Some("--help"));
    assert!(matches!(r.stop, Stop::Run));
    assert!(matches!(parse_args(&vec![]).stop, Stop::Run));
    assert!(print_help().starts_with("hal - Chat with LLMs from your terminal\n\nUSAGE:\n    hal [OPTIONS]\n"));
    assert!(print_help().ends_with("    update                   Update hal to the latest version\n"));
}

#[test]
fn the_setup_runs_where_a_key_is_missing() {
    let mut c = Config::default();
    assert!(needs_setup(&c, false));
    assert!(!needs_setup(&c, true));
    c.providers[0].provider.api_key = Some("k".to_string());
    assert!(!needs_setup(&c, false));
    c.default_provider = "nobody".to_string();
    assert!(needs_setup(&c, true));
}

#[test]
fn the_setup_offers_the_provider_in_use_first() {
    let mut c = Config::default();
    for name in ["zeta", "alpha"] {
        c.providers.push(ProviderEntry {
            name: name.to_string(),
            provider: Provider {
                base_url: "u".to_string(),
                model: "m".to_string(),
                api_key_env: "E".to_string(),
                api_key: None,
            },
        });
    }
    assert_eq!(setup_order(&c), vec!["gemini", "alpha", "openai", "zeta"]);
    c.default_provider = "zeta".to_string();
    assert_eq!(setup_order(&c), vec!["zeta", "alpha", "gemini", "openai"]);
    c.default_provider = "nobody".to_string();
    assert_eq!(setup_order(&c), vec!["alpha", "gemini", "openai", "zeta"]);
}

#[test]
fn numbers_are_read_as_std_reads_them() {
    let max = usize::MAX.to_string();
    let over = format!("{}0", usize::MAX);
    let samples: Vec<&str> = vec![
        "", " ", "0", "1", " 2 ", "+3", "-3", "007", "1a", "a1", "+", "++1", "1 2", "٣", "1.0",
        &max, &over, "18446744073709551616", "\t42\n",
    ];
    for s in samples {
        assert_eq!(parse_number(s), s.trim().parse::<usize>().ok(), "{:?}", s);
    }
}

#[test]
fn a_choice_is_a_number_in_range() {
    assert_eq!(setup_choice("1", 4), Ok(0));
    assert_eq!(setup_choice(" 4 ", 4), Ok(3));
    assert_eq!(setup_choice("0", 4), Err("Invalid choice".to_string()));
    assert_eq!(setup_choice("5", 4), Err("Invalid choice".to_string()));
    assert_eq!(setup_choice("x", 4), Err("Invalid choice".to_string()));
    assert_eq!(setup_choice("", 4), Err("Invalid choice".to_string()));
    assert_eq!(setup_choice("1", 0), Err("Invalid choice".to_string()));
    assert_eq!(setup_key("  sk-1 \n"), Ok("sk-1".to_string()));
    assert_eq!(setup_key("  \n"), Err("API key cannot be empty".to_string()));
}

#[test]
fn an_update_fetches_the_release_of_the_platform() {
    match self_update("0.1.0", Some("v0.2.0"), "linux", "x86_64").unwrap() {
        UpdatePlan::Download { url, latest } => {
            assert_eq!(url, "https://github.com/fairhill1/hal/releases/latest/download/hal-linux-x86_64");
            assert_eq!(latest, "0.2.0");
        }
        other => panic!("{:?}", other),
    }
    match self_update("0.1.0", Some("v0.1.0"), "plan9", "mips").unwrap() {
        UpdatePlan::UpToDate(m) => assert_eq!(m, "Already on the latest version (v0.1.0)."),
        other => panic!("{:?}", other),
    }
    assert!(matches!(self_update("0.1.0", Some("0.1.0"), "macos", "aarch64"), Ok(UpdatePlan::UpToDate(_))));
    assert!(matches!(self_update("0.1.0", Some("vv0.1.0"), "macos", "aarch64"), Ok(UpdatePlan::UpToDate(_))));
    assert_eq!(self_update("0.1.0", None, "linux", "x86_64").err(), Some("No tag_name in release".to_string()));
    assert_eq!(
        self_update("0.1.0", Some("v2"), "plan9", "x86_64").err(),
        Some("Unsupported OS: plan9".to_string())
    );
    assert_eq!(
        self_update("0.1.0", Some("v2"), "windows", "mips").err(),
        Some("Unsupported architecture: mips".to_string())
    );
    assert_eq!(
        hal::cli::update_done("0.1.0", "0.2.0", 10),
        Ok("Updated v0.1.0 → v0.2.0. Restart hal to use the new version.".to_string())
    );
    assert_eq!(hal::cli::update_done("0.1.0", "0.2.0", 0), Err("Downloaded file is empty".to_string()));
}
