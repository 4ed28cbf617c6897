//! The sandbox policy: which paths outside the working directory a shell
//! command is likely to write to, and which of them the allow-list covers.

use vstd::prelude::*;
use crate::lines::strs;
use crate::paths::{join_path, joined, path_starts_with, starts_with_path};
use crate::text::{chars_of, contains_text, has_prefix, has_text, slice_of, starts_with, string_of};

verus! {

/// The allow-list: the paths that sandboxed commands may write to.
#[derive(Debug)]
pub struct SandboxConfig {
    pub allowed_paths: Vec<String>,
}

/// A path that a command likely needs, and why.
#[derive(Debug)]
pub struct PathRequest {
    pub path: String,
    pub reason: String,
}

/// What the environment says of the homes of the toolchains.
#[derive(Debug)]
pub struct ToolchainEnv {
    /// The user's home directory.
    pub home: Option<String>,
    /// `CARGO_HOME`.
    pub cargo_home: Option<String>,
    /// `RUSTUP_HOME`.
    pub rustup_home: Option<String>,
    /// `NVM_DIR`.
    pub nvm_dir: Option<String>,
    /// `GOPATH`.
    pub gopath: Option<String>,
}

/// A sandbox configuration and the file that holds it.
#[derive(Debug)]
pub struct SandboxFile {
    pub file: String,
    pub config: SandboxConfig,
}

/// The text of an optional string.
pub open spec fn opt_text(o: Option<String>) -> Option<Seq<char>> {
    match o {
        Some(s) => Some(s@),
        None => None,
    }
}

/// The text of an optional string slice.
pub open spec fn opt_str(o: Option<&str>) -> Option<Seq<char>> {
    match o {
        Some(s) => Some(s@),
        None => None,
    }
}

/// What the environment says of the toolchains, as its texts.
pub struct EnvView {
    pub home: Option<Seq<char>>,
    pub cargo_home: Option<Seq<char>>,
    pub rustup_home: Option<Seq<char>>,
    pub nvm_dir: Option<Seq<char>>,
    pub gopath: Option<Seq<char>>,
}

impl View for ToolchainEnv {
    type V = EnvView;

    open spec fn view(&self) -> EnvView {
        EnvView {
            home: opt_text(self.home),
            cargo_home: opt_text(self.cargo_home),
            rustup_home: opt_text(self.rustup_home),
            nvm_dir: opt_text(self.nvm_dir),
            gopath: opt_text(self.gopath),
        }
    }
}

impl View for PathRequest {
    type V = (Seq<char>, Seq<char>);

    open spec fn view(&self) -> (Seq<char>, Seq<char>) {
        (self.path@, self.reason@)
    }
}

/// The requests that a vector holds, each as its path and its reason.
pub open spec fn request_views(v: Seq<PathRequest>) -> Seq<(Seq<char>, Seq<char>)> {
    Seq::new(v.len(), |i: int| v[i]@)
}

/// The home directory, or `~` where the environment names none.
pub open spec fn home_dir(env: EnvView) -> Seq<char> {
    match env.home {
        Some(h) => h,
        None => "~"@,
    }
}

/// The value of a variable, or the given place under the home directory.
pub open spec fn or_in_home(var: Option<Seq<char>>, env: EnvView, rel: Seq<char>) -> Seq<char> {
    match var {
        Some(v) => v,
        None => join_path(home_dir(env), rel),
    }
}

/// What a command that names the Rust toolchain asks for.
pub open spec fn rust_paths(cmd: Seq<char>, env: EnvView) -> Seq<(Seq<char>, Seq<char>)> {
    if contains_text(cmd, "cargo"@) || contains_text(cmd, "rustc"@) || contains_text(
        cmd,
        "rustup"@,
    ) {
        seq![
            (
                or_in_home(env.cargo_home, env, ".cargo"@),
                "Cargo needs access to ~/.cargo for toolchain and crates"@,
            ),
            (
                or_in_home(env.rustup_home, env, ".rustup"@),
                "Rust needs access to ~/.rustup for toolchain"@,
            ),
        ]
    } else {
        seq![]
    }
}

/// What a command that names Node or one of its package managers asks for.
pub open spec fn node_paths(cmd: Seq<char>, env: EnvView) -> Seq<(Seq<char>, Seq<char>)> {
    if contains_text(cmd, "npm"@) || contains_text(cmd, "yarn"@) || contains_text(cmd, "pnpm"@)
        || contains_text(cmd, "node"@) || contains_text(cmd, "npx"@) {
        seq![
            (join_path(home_dir(env), ".npm"@), "npm needs access to ~/.npm for cache"@),
            (join_path(home_dir(env), ".node"@), "Node needs access to ~/.node"@),
            match env.nvm_dir {
                Some(dir) => (dir, "Node version manager directory"@),
                None => (join_path(home_dir(env), ".nvm"@), "nvm needs access to ~/.nvm"@),
            },
        ]
    } else {
        seq![]
    }
}

/// What a command that runs `go` asks for.
pub open spec fn go_paths(cmd: Seq<char>, env: EnvView) -> Seq<(Seq<char>, Seq<char>)> {
    if starts_with(cmd, "go "@) || contains_text(cmd, " go "@) {
        seq![(or_in_home(env.gopath, env, "go"@), "Go needs access to GOPATH"@)]
    } else {
        seq![]
    }
}

/// What a command that names a Python tool asks for.
pub open spec fn python_paths(cmd: Seq<char>, env: EnvView) -> Seq<(Seq<char>, Seq<char>)> {
    if contains_text(cmd, "python"@) || contains_text(cmd, "pip"@) || contains_text(
        cmd,
        "poetry"@,
    ) || contains_text(cmd, "uv"@) {
        seq![
            (join_path(home_dir(env), ".local"@), "Python tools often install to ~/.local"@),
            (join_path(home_dir(env), ".cache/pip"@), "pip cache directory"@),
            (join_path(home_dir(env), ".cache/uv"@), "uv cache directory"@),
        ]
    } else {
        seq![]
    }
}

/// What a command that names Homebrew asks for.
pub open spec fn brew_paths(cmd: Seq<char>) -> Seq<(Seq<char>, Seq<char>)> {
    if contains_text(cmd, "brew"@) {
        seq![
            ("/opt/homebrew"@, "Homebrew installation directory"@),
            ("/usr/local"@, "Homebrew installation directory (Intel Mac)"@),
        ]
    } else {
        seq![]
    }
}

/// What a command that names git asks for.
pub open spec fn git_paths(cmd: Seq<char>, env: EnvView) -> Seq<(Seq<char>, Seq<char>)> {
    if contains_text(cmd, "git"@) {
        seq![
            (join_path(home_dir(env), ".gitconfig"@), "Git configuration file"@),
            (join_path(home_dir(env), ".ssh"@), "SSH keys for git authentication"@),
        ]
    } else {
        seq![]
    }
}

/// Every path that a command asks for, toolchain by toolchain.
pub open spec fn required_paths(cmd: Seq<char>, env: EnvView) -> Seq<(Seq<char>, Seq<char>)> {
    rust_paths(cmd, env) + node_paths(cmd, env) + go_paths(cmd, env) + python_paths(cmd, env)
        + brew_paths(cmd) + git_paths(cmd, env)
}

/// Whether one entry of the allow-list satisfies a requested path: one of the
/// two is a prefix of the other, whole components compared.
pub open spec fn satisfies(request: Seq<char>, allowed: Seq<char>) -> bool {
    path_starts_with(request, allowed) || path_starts_with(allowed, request)
}

/// Whether some entry of the allow-list satisfies a requested path.
pub open spec fn covered(request: Seq<char>, allowed: Seq<Seq<char>>) -> bool {
    exists|k: int| 0 <= k < allowed.len() && satisfies(request, #[trigger] allowed[k])
}

/// The requests that no entry of the allow-list satisfies, in their order.
pub open spec fn uncovered(reqs: Seq<(Seq<char>, Seq<char>)>, allowed: Seq<Seq<char>>) -> Seq<
    (Seq<char>, Seq<char>),
>
    decreases reqs.len(),
{
    if reqs.len() == 0 {
        seq![]
    } else if covered(reqs.last().0, allowed) {
        uncovered(reqs.drop_last(), allowed)
    } else {
        uncovered(reqs.drop_last(), allowed).push(reqs.last())
    }
}

/// The list `base` with those of the paths `more` added that it does not hold
/// yet, in their order.
pub open spec fn extended(base: Seq<Seq<char>>, more: Seq<Seq<char>>) -> Seq<Seq<char>>
    decreases more.len(),
{
    if more.len() == 0 {
        base
    } else {
        let before = extended(base, more.drop_last());
        if before.contains(more.last()) {
            before
        } else {
            before.push(more.last())
        }
    }
}

/// A list with an element added holds what it held, and the element.
pub proof fn push_holds(list: Seq<Seq<char>>, t: Seq<char>, p: Seq<char>)
    ensures
        list.push(t).contains(p) <==> (list.contains(p) || p == t),
{
    if list.push(t).contains(p) {
        let i = choose|i: int| 0 <= i < list.push(t).len() && list.push(t)[i] == p;
        if i < list.len() {
            assert(list[i] == p);
        }
    }
    if list.contains(p) {
        let i = choose|i: int| 0 <= i < list.len() && list[i] == p;
        assert(list.push(t)[i] == p);
    }
    if p == t {
        assert(list.push(t)[list.len() as int] == p);
    }
}

/// An extended list holds exactly what the two lists hold, and holds no path
/// twice if the list that was extended held none twice.
pub proof fn extended_holds_both(base: Seq<Seq<char>>, more: Seq<Seq<char>>)
    ensures
        forall|p: Seq<char>|
            extended(base, more).contains(p) <==> (base.contains(p) || more.contains(p)),
        base.no_duplicates() ==> extended(base, more).no_duplicates(),
    decreases more.len(),
{
    if more.len() > 0 {
        let rest = more.drop_last();
        let t = more.last();
        let before = extended(base, rest);
        extended_holds_both(base, rest);
        assert(more =~= rest.push(t));
        assert forall|p: Seq<char>|
            extended(base, more).contains(p) <==> (base.contains(p) || more.contains(p)) by {
            push_holds(before, t, p);
            push_holds(rest, t, p);
            assert(before.contains(p) <==> (base.contains(p) || rest.contains(p)));
        }
        if base.no_duplicates() && !before.contains(t) {
            let now = before.push(t);
            assert forall|i: int, j: int| 0 <= i < now.len() && 0 <= j < now.len() && i != j implies now[i]
                != now[j] by {
                if i == before.len() {
                    assert(before.contains(before[j]));
                } else if j == before.len() {
                    assert(before.contains(before[i]));
                }
            }
        }
    }
}

/// A path with a leading `~/` replaced by the home directory, where one is
/// known.
pub open spec fn expand_home(path: Seq<char>, home: Option<Seq<char>>) -> Seq<char> {
    match home {
        Some(h) => if starts_with(path, "~/"@) {
            join_path(h, path.subrange(2, path.len() as int))
        } else {
            path
        },
        None => path,
    }
}

/// The file of the global allow-list, under the user's configuration
/// directory, or under `.` where there is none.
pub open spec fn global_file(config_dir: Option<Seq<char>>) -> Seq<char> {
    join_path(
        join_path(
            match config_dir {
                Some(d) => d,
                None => "."@,
            },
            "hal"@,
        ),
        "sandbox.json"@,
    )
}

/// The file of the project's allow-list.
pub open spec fn project_file() -> Seq<char> {
    join_path(".hal"@, "sandbox.json"@)
}

fn mentions(cmd: &Vec<char>, word: &str) -> (b: bool)
    ensures
        b == contains_text(cmd@, word@),
{
    let w = chars_of(word);
    has_text(cmd, &w)
}

fn request(path: Vec<char>, reason: &str) -> (r: PathRequest)
    ensures
        r@ == (path@, reason@),
{
    PathRequest { path: string_of(&path), reason: reason.to_owned() }
}

fn home_chars(env: &ToolchainEnv) -> (h: Vec<char>)
    ensures
        h@ == home_dir(env@),
{
    match &env.home {
        Some(h) => chars_of(h.as_str()),
        None => chars_of("~"),
    }
}

fn under_home(env: &ToolchainEnv, rel: &str) -> (p: Vec<char>)
    ensures
        p@ == join_path(home_dir(env@), rel@),
{
    let h = home_chars(env);
    let r = chars_of(rel);
    joined(&h, &r)
}

fn var_or_home(var: &Option<String>, env: &ToolchainEnv, rel: &str) -> (p: Vec<char>)
    ensures
        p@ == or_in_home(opt_text(*var), env@, rel@),
{
    match var {
        Some(v) => chars_of(v.as_str()),
        None => under_home(env, rel),
    }
}

fn push_request(out: &mut Vec<PathRequest>, path: Vec<char>, reason: &str)
    ensures
        request_views(final(out)@) == request_views(old(out)@).push((path@, reason@)),
{
    let r = request(path, reason);
    assert(request_views(out@.push(r)) =~= request_views(out@).push(r@));
    out.push(r);
}

fn push_rust_paths(out: &mut Vec<PathRequest>, cmd: &Vec<char>, env: &ToolchainEnv)
    ensures
        request_views(final(out)@) == request_views(old(out)@) + rust_paths(cmd@, env@),
{
    if mentions(cmd, "cargo") || mentions(cmd, "rustc") || mentions(cmd, "rustup") {
        push_request(
            out,
            var_or_home(&env.cargo_home, env, ".cargo"),
            "Cargo needs access to ~/.cargo for toolchain and crates",
        );
        push_request(
            out,
            var_or_home(&env.rustup_home, env, ".rustup"),
            "Rust needs access to ~/.rustup for toolchain",
        );
    }
    assert(request_views(out@) =~= request_views(old(out)@) + rust_paths(cmd@, env@));
}

fn push_node_paths(out: &mut Vec<PathRequest>, cmd: &Vec<char>, env: &ToolchainEnv)
    ensures
        request_views(final(out)@) == request_views(old(out)@) + node_paths(cmd@, env@),
{
    if mentions(cmd, "npm") || mentions(cmd, "yarn") || mentions(cmd, "pnpm") || mentions(
        cmd,
        "node",
    ) || mentions(cmd, "npx") {
        push_request(out, under_home(env, ".npm"), "npm needs access to ~/.npm for cache");
        push_request(out, under_home(env, ".node"), "Node needs access to ~/.node");
        match &env.nvm_dir {
            Some(dir) => {
                push_request(out, chars_of(dir.as_str()), "Node version manager directory");
            },
            None => {
                push_request(out, under_home(env, ".nvm"), "nvm needs access to ~/.nvm");
            },
        }
    }
    assert(request_views(out@) =~= request_views(old(out)@) + node_paths(cmd@, env@));
}

fn push_go_paths(out: &mut Vec<PathRequest>, cmd: &Vec<char>, env: &ToolchainEnv)
    ensures
        request_views(final(out)@) == request_views(old(out)@) + go_paths(cmd@, env@),
{
    let go_prefix = chars_of("go ");
    if has_prefix(cmd, &go_prefix) || mentions(cmd, " go ") {
        push_request(out, var_or_home(&env.gopath, env, "go"), "Go needs access to GOPATH");
    }
    assert(request_views(out@) =~= request_views(old(out)@) + go_paths(cmd@, env@));
}

fn push_python_paths(out: &mut Vec<PathRequest>, cmd: &Vec<char>, env: &ToolchainEnv)
    ensures
        request_views(final(out)@) == request_views(old(out)@) + python_paths(cmd@, env@),
{
    if mentions(cmd, "python") || mentions(cmd, "pip") || mentions(cmd, "poetry") || mentions(
        cmd,
        "uv",
    ) {
        push_request(out, under_home(env, ".local"), "Python tools often install to ~/.local");
        push_request(out, under_home(env, ".cache/pip"), "pip cache directory");
        push_request(out, under_home(env, ".cache/uv"), "uv cache directory");
    }
    assert(request_views(out@) =~= request_views(old(out)@) + python_paths(cmd@, env@));
}

fn push_brew_paths(out: &mut Vec<PathRequest>, cmd: &Vec<char>)
    ensures
        request_views(final(out)@) == request_views(old(out)@) + brew_paths(cmd@),
{
    if mentions(cmd, "brew") {
        push_request(out, chars_of("/opt/homebrew"), "Homebrew installation directory");
        push_request(out, chars_of("/usr/local"), "Homebrew installation directory (Intel Mac)");
    }
    assert(request_views(out@) =~= request_views(old(out)@) + brew_paths(cmd@));
}

fn push_git_paths(out: &mut Vec<PathRequest>, cmd: &Vec<char>, env: &ToolchainEnv)
    ensures
        request_views(final(out)@) == request_views(old(out)@) + git_paths(cmd@, env@),
{
    if mentions(cmd, "git") {
        push_request(out, under_home(env, ".gitconfig"), "Git configuration file");
        push_request(out, under_home(env, ".ssh"), "SSH keys for git authentication");
    }
    assert(request_views(out@) =~= request_views(old(out)@) + git_paths(cmd@, env@));
}

/// The paths that a command is likely to write to outside the working
/// directory, found by the toolchains that its text names.
pub fn detect_required_paths(command: &str, env: &ToolchainEnv) -> (out: Vec<PathRequest>)
    ensures
        request_views(out@) == required_paths(command@, env@),
{
    let cmd = chars_of(command);
    let mut out: Vec<PathRequest> = Vec::new();
    assert(request_views(out@) =~= Seq::empty());
    push_rust_paths(&mut out, &cmd, env);
    push_node_paths(&mut out, &cmd, env);
    push_go_paths(&mut out, &cmd, env);
    push_python_paths(&mut out, &cmd, env);
    push_brew_paths(&mut out, &cmd);
    push_git_paths(&mut out, &cmd, env);
    assert(request_views(out@) =~= required_paths(command@, env@));
    out
}

/// Whether an entry of the allow-list satisfies a requested path.
pub fn path_satisfied_by(request: &str, allowed: &str) -> (is: bool)
    ensures
        is == satisfies(request@, allowed@),
{
    let r = chars_of(request);
    let a = chars_of(allowed);
    starts_with_path(&r, &a) || starts_with_path(&a, &r)
}

/// Whether some entry of the allow-list satisfies a requested path.
pub fn path_covered(request: &str, allowed: &Vec<String>) -> (is: bool)
    ensures
        is == covered(request@, strs(allowed@)),
{
    let mut k: usize = 0;
    while k < allowed.len()
        invariant
            k <= allowed.len(),
            forall|j: int| 0 <= j < k ==> !satisfies(request@, #[trigger] strs(allowed@)[j]),
        decreases allowed.len() - k,
    {
        if path_satisfied_by(request, allowed[k].as_str()) {
            assert(satisfies(request@, strs(allowed@)[k as int]));
            return true;
        }
        k += 1;
    }
    false
}

/// The requests among `required` that the allow-list does not cover.
pub fn missing_among(required: &Vec<PathRequest>, allowed: &Vec<String>) -> (out: Vec<PathRequest>)
    ensures
        request_views(out@) == uncovered(request_views(required@), strs(allowed@)),
{
    let mut out: Vec<PathRequest> = Vec::new();
    let ghost all = request_views(required@);
    assert(all.take(0) =~= Seq::empty());
    let mut i: usize = 0;
    while i < required.len()
        invariant
            i <= required.len(),
            all == request_views(required@),
            request_views(out@) == uncovered(all.take(i as int), strs(allowed@)),
        decreases required.len() - i,
    {
        proof {
            assert(all.take(i + 1).drop_last() =~= all.take(i as int));
            assert(all.take(i + 1).last() == required@[i as int]@);
        }
        if !path_covered(required[i].path.as_str(), allowed) {
            let r = PathRequest {
                path: required[i].path.clone(),
                reason: required[i].reason.clone(),
            };
            proof {
                assert(request_views(out@.push(r)) =~= request_views(out@).push(r@));
            }
            out.push(r);
        }
        i += 1;
    }
    assert(all.take(i as int) =~= all);
    out
}

/// The paths that a command asks for and the allow-list does not cover.
pub fn get_missing_paths(command: &str, env: &ToolchainEnv, config: &SandboxConfig) -> (out: Vec<
    PathRequest,
>)
    ensures
        request_views(out@) == uncovered(required_paths(command@, env@), config.paths()),
{
    let required = detect_required_paths(command, env);
    missing_among(&required, &config.allowed_paths)
}

/// Whether a list of strings holds the given text.
pub fn holds_text(list: &Vec<String>, s: &str) -> (is: bool)
    ensures
        is == strs(list@).contains(s@),
{
    let mut k: usize = 0;
    while k < list.len()
        invariant
            k <= list.len(),
            forall|j: int| 0 <= j < k ==> strs(list@)[j] != s@,
        decreases list.len() - k,
    {
        if crate::text::str_eq(list[k].as_str(), s) {
            assert(strs(list@)[k as int] == s@);
            return true;
        }
        k += 1;
    }
    false
}

/// Computes `expand_home`.
pub fn expand_path(path: &str, home: Option<&str>) -> (out: String)
    ensures
        out@ == expand_home(path@, opt_str(home)),
{
    let p = chars_of(path);
    match home {
        Some(h) => {
            let tilde = chars_of("~/");
            if has_prefix(&p, &tilde) {
                proof {
                    reveal_strlit("~/");
                }
                let rest = slice_of(&p, 2, p.len());
                let hv = chars_of(h);
                let j = joined(&hv, &rest);
                string_of(&j)
            } else {
                string_of(&p)
            }
        },
        None => string_of(&p),
    }
}

/// Computes `global_file`.
pub fn global_config_path(config_dir: Option<&str>) -> (out: String)
    ensures
        out@ == global_file(opt_str(config_dir)),
{
    let base = match config_dir {
        Some(d) => chars_of(d),
        None => chars_of("."),
    };
    let dir = joined(&base, &chars_of("hal"));
    let file = joined(&dir, &chars_of("sandbox.json"));
    string_of(&file)
}

/// Computes `project_file`.
pub fn project_config_path() -> (out: String)
    ensures
        out@ == project_file(),
{
    let file = joined(&chars_of(".hal"), &chars_of("sandbox.json"));
    string_of(&file)
}

impl Default for SandboxConfig {
    fn default() -> (out: Self)
        ensures
            out.paths() == Seq::<Seq<char>>::empty(),
    {
        let out = SandboxConfig { allowed_paths: Vec::new() };
        assert(out.paths() =~= Seq::<Seq<char>>::empty());
        out
    }
}

impl SandboxConfig {
    /// The allowed paths as texts.
    pub open spec fn paths(&self) -> Seq<Seq<char>> {
        strs(self.allowed_paths@)
    }

    /// What adding a path to an allow-list gives: the list itself where it
    /// holds the expanded path already, else the list with it at the end.
    pub open spec fn with_path(list: Seq<Seq<char>>, path: Seq<char>, home: Option<Seq<char>>) -> Seq<
        Seq<char>,
    > {
        if list.contains(expand_home(path, home)) {
            list
        } else {
            list.push(expand_home(path, home))
        }
    }

    /// Adds a path to the allow-list, with `~/` expanded, unless the list
    /// holds it already.
    pub fn add_path(&mut self, path: &str, home: Option<&str>)
        ensures
            final(self).paths() == Self::with_path(old(self).paths(), path@, opt_str(home)),
    {
        let expanded = expand_path(path, home);
        if !holds_text(&self.allowed_paths, expanded.as_str()) {
            proof {
                assert(strs(self.allowed_paths@.push(expanded)) =~= strs(self.allowed_paths@).push(
                    expanded@,
                ));
            }
            self.allowed_paths.push(expanded);
        }
    }

    /// The union of the global and the project's allow-list, each path once:
    /// the paths of the global list, then those that the project adds.
    pub fn load_merged(global: SandboxConfig, project: SandboxConfig) -> (out: SandboxConfig)
        ensures
            out.paths() == extended(extended(Seq::empty(), global.paths()), project.paths()),
            out.paths().no_duplicates(),
            forall|p: Seq<char>|
                out.paths().contains(p) <==> (global.paths().contains(p) || project.paths().contains(
                    p,
                )),
    {
        let mut out = SandboxConfig { allowed_paths: Vec::new() };
        assert(out.paths() =~= Seq::<Seq<char>>::empty());
        out.absorb(&global);
        out.absorb(&project);
        proof {
            extended_holds_both(Seq::empty(), global.paths());
            extended_holds_both(extended(Seq::empty(), global.paths()), project.paths());
        }
        out
    }

    /// Adds the paths of `other` that the list does not hold yet.
    pub fn absorb(&mut self, other: &SandboxConfig)
        ensures
            final(self).paths() == extended(old(self).paths(), other.paths()),
    {
        let mut k: usize = 0;
        assert(other.paths().take(0) =~= Seq::empty());
        while k < other.allowed_paths.len()
            invariant
                k <= other.allowed_paths.len(),
                self.paths() == extended(old(self).paths(), other.paths().take(k as int)),
            decreases other.allowed_paths.len() - k,
        {
            let item = other.allowed_paths[k].clone();
            proof {
                assert(other.paths().take(k + 1).drop_last() =~= other.paths().take(k as int));
                assert(other.paths().take(k + 1).last() == item@);
            }
            if !holds_text(&self.allowed_paths, item.as_str()) {
                assert(strs(self.allowed_paths@.push(item)) =~= self.paths().push(item@));
                self.allowed_paths.push(item);
            }
            k += 1;
        }
        assert(other.paths().take(k as int) =~= other.paths());
    }

    /// The global allow-list with a path added, and the file to store it in.
    pub fn add_path_global(
        stored: SandboxConfig,
        path: &str,
        home: Option<&str>,
        config_dir: Option<&str>,
    ) -> (out: SandboxFile)
        ensures
            out.file@ == global_file(opt_str(config_dir)),
            out.config.paths() == Self::with_path(stored.paths(), path@, opt_str(home)),
    {
        let mut config = stored;
        config.add_path(path, home);
        SandboxFile { file: global_config_path(config_dir), config }
    }

    /// The project's allow-list with a path added, and the file to store it
    /// in.
    pub fn add_path_project(stored: SandboxConfig, path: &str, home: Option<&str>) -> (out:
        SandboxFile)
        ensures
            out.file@ == project_file(),
            out.config.paths() == Self::with_path(stored.paths(), path@, opt_str(home)),
    {
        let mut config = stored;
        config.add_path(path, home);
        SandboxFile { file: project_config_path(), config }
    }
}

/// The paths that sandboxed commands may write to: the two allow-lists
/// merged.
pub fn get_allowed_paths(global: SandboxConfig, project: SandboxConfig) -> (out: Vec<String>)
    ensures
        strs(out@) == extended(extended(Seq::empty(), global.paths()), project.paths()),
        strs(out@).no_duplicates(),
        forall|p: Seq<char>|
            strs(out@).contains(p) <==> (global.paths().contains(p) || project.paths().contains(p)),
{
    SandboxConfig::load_merged(global, project).allowed_paths
}

} // verus!
