use hal::sandbox::{
    detect_required_paths, expand_path, get_missing_paths, path_satisfied_by, SandboxConfig,
    ToolchainEnv,
};

fn env_with_home(home: &str) -> ToolchainEnv {
    ToolchainEnv {
        home: Some(home.to_string()),
        cargo_home: None,
        rustup_home: None,
        nvm_dir: None,
        gopath: None,
    }
}

#[test]
fn cargo_command_asks_for_cargo_and_rustup() {
    let reqs = detect_required_paths("cargo build", &env_with_home("/home/u"));
    assert_eq!(reqs.len(), 2);
    assert_eq!(reqs[0].path, "/home/u/.cargo");
    assert_eq!(reqs[0].reason, "Cargo needs access to ~/.cargo for toolchain and crates");
    assert_eq!(reqs[1].path, "/home/u/.rustup");
}

#[test]
fn cargo_home_variable_wins() {
    let mut env = env_with_home("/home/u");
    env.cargo_home = Some("/opt/cargo".to_string());
    let reqs = detect_required_paths("rustc main.rs", &env);
    assert_eq!(reqs[0].path, "/opt/cargo");
    assert_eq!(reqs[1].path, "/home/u/.rustup");
}

#[test]
fn go_needs_a_space() {
    let env = env_with_home("/h");
    assert_eq!(detect_required_paths("go build", &env).len(), 1);
    assert_eq!(detect_required_paths("x && go test", &env).len(), 1);
    assert_eq!(detect_required_paths("echo gone", &env).len(), 0);
    assert_eq!(detect_required_paths("go build", &env)[0].path, "/h/go");
}

#[test]
fn missing_home_is_a_tilde() {
    let env = ToolchainEnv {
        home: None,
        cargo_home: None,
        rustup_home: None,
        nvm_dir: None,
        gopath: None,
    };
    let reqs = detect_required_paths("git status", &env);
    assert_eq!(reqs.len(), 2);
    assert_eq!(reqs[0].path, "~/.gitconfig");
    assert_eq!(reqs[1].path, "~/.ssh");
}

#[test]
fn prefix_match_is_by_components() {
    assert!(path_satisfied_by("/home/u/.cargo", "/home/u"));
    assert!(path_satisfied_by("/home/u", "/home/u/.cargo"));
    assert!(path_satisfied_by("/home/u/.cargo", "/home/u/.cargo/"));
    assert!(!path_satisfied_by("/home/u/.cargo", "/home/u/.car"));
    assert!(!path_satisfied_by("/home/u/.cargo", "/home/v"));
    assert!(path_satisfied_by("/home/u/./.cargo", "/home//u"));
}

#[test]
fn prefix_match_agrees_with_std_paths() {
    let samples = [
        "", "/", ".", "..", "a", "a/b", "/a/b", "./a", "a/./b", "a//b", "a/b/", "/a/../b", "./.",
        "~/x", "/home/u/.cargo", "/home/u", "home/u",
    ];
    for r in samples.iter() {
        for a in samples.iter() {
            let rp = std::path::Path::new(r);
            let ap = std::path::Path::new(a);
            let expected = rp.starts_with(ap) || ap.starts_with(rp);
            assert_eq!(path_satisfied_by(r, a), expected, "{:?} against {:?}", r, a);
        }
    }
}

#[test]
fn missing_paths_drop_what_is_allowed() {
    let env = env_with_home("/home/u");
    let config = SandboxConfig { allowed_paths: vec!["/home/u/.cargo".to_string()] };
    let missing = get_missing_paths("cargo build", &env, &config);
    assert_eq!(missing.len(), 1);
    assert_eq!(missing[0].path, "/home/u/.rustup");
    let none = SandboxConfig { allowed_paths: vec![] };
    assert_eq!(get_missing_paths("cargo build", &env, &none).len(), 2);
}

#[test]
fn tilde_expands_to_home() {
    assert_eq!(expand_path("~/x/y", Some("/home/u")), "/home/u/x/y");
    assert_eq!(expand_path("~/x", None), "~/x");
    assert_eq!(expand_path("/abs", Some("/home/u")), "/abs");
    assert_eq!(expand_path("~x", Some("/home/u")), "~x");
}

#[test]
fn merged_list_holds_each_path_once() {
    let global = SandboxConfig { allowed_paths: vec!["/a".to_string(), "/b".to_string()] };
    let project = SandboxConfig { allowed_paths: vec!["/b".to_string(), "/c".to_string()] };
    let mut merged = SandboxConfig::load_merged(global, project).allowed_paths;
    merged.sort();
    assert_eq!(merged, vec!["/a".to_string(), "/b".to_string(), "/c".to_string()]);
}

#[test]
fn adding_a_path_twice_keeps_one() {
    let stored = SandboxConfig { allowed_paths: vec![] };
    let once = SandboxConfig::add_path_project(stored, "~/.cargo", Some("/home/u"));
    assert_eq!(once.file, ".hal/sandbox.json");
    assert_eq!(once.config.allowed_paths, vec!["/home/u/.cargo".to_string()]);
    let twice = SandboxConfig::add_path_global(once.config, "/home/u/.cargo", None, Some("/cfg"));
    assert_eq!(twice.file, "/cfg/hal/sandbox.json");
    assert_eq!(twice.config.allowed_paths.len(), 1);
}
