//! The configuration: the providers of the chat API, which of them is in
//! use, and the mode that the agent runs in.

use vstd::prelude::*;
use crate::lines::{position_of, position_of_is_first};
use crate::sandbox::opt_text;
use crate::text::str_eq;

verus! {

/// What the agent is run for.
#[derive(Debug, Clone, Copy, PartialEq, Eq, Structural)]
pub enum Mode {
    Coding,
    Coach,
}

/// One provider of the chat API.
#[derive(Debug)]
pub struct Provider {
    pub base_url: String,
    pub model: String,
    /// The environment variable that holds the key.
    pub api_key_env: String,
    /// The key, where the configuration itself holds it.
    pub api_key: Option<String>,
}

/// A provider as its texts.
pub struct ProviderView {
    pub base_url: Seq<char>,
    pub model: Seq<char>,
    pub api_key_env: Seq<char>,
    pub api_key: Option<Seq<char>>,
}

impl View for Provider {
    type V = ProviderView;

    open spec fn view(&self) -> ProviderView {
        ProviderView {
            base_url: self.base_url@,
            model: self.model@,
            api_key_env: self.api_key_env@,
            api_key: opt_text(self.api_key),
        }
    }
}

impl Clone for Provider {
    fn clone(&self) -> (out: Self)
        ensures
            out@ == self@,
    {
        Provider {
            base_url: self.base_url.clone(),
            model: self.model.clone(),
            api_key_env: self.api_key_env.clone(),
            api_key: match &self.api_key {
                Some(k) => Some(k.clone()),
                None => None,
            },
        }
    }
}

/// A provider under its name.
#[derive(Debug)]
pub struct ProviderEntry {
    pub name: String,
    pub provider: Provider,
}

impl Clone for ProviderEntry {
    fn clone(&self) -> (out: Self)
        ensures
            out.name@ == self.name@,
            out.provider@ == self.provider@,
    {
        ProviderEntry { name: self.name.clone(), provider: self.provider.clone() }
    }
}

/// The configuration of the agent.
#[derive(Debug)]
pub struct Config {
    /// The name of the provider in use.
    pub default_provider: String,
    pub mode: Mode,
    /// The providers, each under a name of its own.
    pub providers: Vec<ProviderEntry>,
}

/// The names of the providers, in their order.
pub open spec fn entry_names(entries: Seq<ProviderEntry>) -> Seq<Seq<char>> {
    Seq::new(entries.len(), |i: int| entries[i].name@)
}

/// The providers, in their order.
pub open spec fn entry_providers(entries: Seq<ProviderEntry>) -> Seq<ProviderView> {
    Seq::new(entries.len(), |i: int| entries[i].provider@)
}

/// A provider of the built-in configuration.
pub open spec fn builtin(base_url: Seq<char>, model: Seq<char>, api_key_env: Seq<char>) -> ProviderView {
    ProviderView { base_url, model, api_key_env, api_key: None }
}

fn entry(name: &str, base_url: &str, model: &str, api_key_env: &str) -> (out: ProviderEntry)
    ensures
        out.name@ == name@,
        out.provider@ == builtin(base_url@, model@, api_key_env@),
{
    ProviderEntry {
        name: name.to_owned(),
        provider: Provider {
            base_url: base_url.to_owned(),
            model: model.to_owned(),
            api_key_env: api_key_env.to_owned(),
            api_key: None,
        },
    }
}

impl Config {
    /// The names of the providers.
    pub open spec fn names(&self) -> Seq<Seq<char>> {
        entry_names(self.providers@)
    }

    /// No two providers share a name.
    pub open spec fn wf(&self) -> bool {
        self.names().no_duplicates()
    }

    /// The position of the provider under `name`, if there is one.
    pub fn find(&self, name: &str) -> (out: Option<usize>)
        ensures
            match out {
                Some(i) => i < self.providers.len() && i == position_of(self.names(), name@),
                None => position_of(self.names(), name@) == self.providers.len(),
            },
    {
        let mut i: usize = 0;
        while i < self.providers.len()
            invariant
                i <= self.providers.len(),
                forall|j: int| 0 <= j < i ==> self.names()[j] != name@,
            decreases self.providers.len() - i,
        {
            if str_eq(self.providers[i].name.as_str(), name) {
                proof {
                    position_of_is_first(self.names(), name@);
                    assert(self.names()[i as int] == name@);
                }
                return Some(i);
            }
            i += 1;
        }
        proof {
            position_of_is_first(self.names(), name@);
        }
        None
    }

    /// The provider under `name`, if there is one.
    pub fn provider_named(&self, name: &str) -> (out: Option<&Provider>)
        ensures
            out is Some <==> self.names().contains(name@),
            out is Some ==> position_of(self.names(), name@) < self.providers.len() && *out->0
                == self.providers[position_of(self.names(), name@)].provider,
    {
        proof {
            position_of_is_first(self.names(), name@);
        }
        match self.find(name) {
            Some(i) => {
                assert(self.names()[i as int] == name@);
                Some(&self.providers[i].provider)
            },
            None => None,
        }
    }

    /// The provider in use: the one under the name `default_provider`.
    pub fn get_provider(&self) -> (out: Option<&Provider>)
        ensures
            out is Some <==> self.names().contains(self.default_provider@),
            out is Some ==> position_of(self.names(), self.default_provider@)
                < self.providers.len() && *out->0 == self.providers[position_of(
                self.names(),
                self.default_provider@,
            )].provider,
    {
        self.provider_named(self.default_provider.as_str())
    }

    /// The names of the built-in providers.
    pub open spec fn builtin_names() -> Seq<Seq<char>> {
        seq!["gemini"@, "openai"@]
    }

    /// The built-in providers.
    pub open spec fn builtin_providers() -> Seq<ProviderView> {
        seq![
            builtin(
                "https://generativelanguage.googleapis.com/v1beta/openai"@,
                "gemini-3-flash-preview"@,
                "HAL_API_KEY_GEMINI"@,
            ),
            builtin("https://api.openai.com/v1"@, "gpt-4o"@, "HAL_API_KEY_OPENAI"@),
        ]
    }
}

impl Default for Config {
    /// The built-in configuration: two providers, `gemini` in use, for
    /// coding.
    fn default() -> (out: Self)
        ensures
            out.default_provider@ == "gemini"@,
            out.mode == Mode::Coding,
            out.names() == Config::builtin_names(),
            entry_providers(out.providers@) == Config::builtin_providers(),
            out.wf(),
    {
        let mut providers: Vec<ProviderEntry> = Vec::new();
        providers.push(
            entry(
                "gemini",
                "https://generativelanguage.googleapis.com/v1beta/openai",
                "gemini-3-flash-preview",
                "HAL_API_KEY_GEMINI",
            ),
        );
        providers.push(entry("openai", "https://api.openai.com/v1", "gpt-4o", "HAL_API_KEY_OPENAI"));
        let out = Config { default_provider: "gemini".to_owned(), mode: Mode::Coding, providers };
        proof {
            assert(out.names() =~= Config::builtin_names());
            assert(entry_providers(out.providers@) =~= Config::builtin_providers());
            reveal_strlit("gemini");
            reveal_strlit("openai");
            assert("gemini"@[0] != "openai"@[0]);
        }
        out
    }
}

} // verus!

verus! {

/// What was found where the configuration is stored.
#[derive(Debug)]
pub enum StoredConfig {
    /// No file.
    Missing,
    /// A file that cannot be read; the error says why.
    Unreadable(String),
    /// A file that holds no configuration; the error says why.
    Unparsable(String),
    /// The configuration that the file holds.
    Parsed(Config),
}

/// The configuration to run with.
#[derive(Debug)]
pub struct LoadedConfig {
    pub config: Config,
    /// What the user is warned of.
    pub warnings: Vec<String>,
    /// Whether the configuration is the built-in one, which is then to be
    /// stored.
    pub store: bool,
}

/// The file of the configuration, under the user's configuration directory,
/// or under `.` where there is none.
pub open spec fn config_file(config_dir: Option<Seq<char>>) -> Seq<char> {
    crate::paths::join_path(
        crate::paths::join_path(
            match config_dir {
                Some(d) => d,
                None => "."@,
            },
            "hal"@,
        ),
        "config.json"@,
    )
}

/// The warnings for a configuration that cannot be used.
pub open spec fn load_warnings(what: Seq<char>, path: Seq<char>, error: Seq<char>) -> Seq<Seq<char>> {
    seq![
        "Warning: Failed to "@ + what + " config at "@ + path + ": "@ + error,
        "Using default configuration."@,
    ]
}

fn warnings(what: &str, path: &str, error: &str) -> (out: Vec<String>)
    ensures
        crate::lines::strs(out@) == load_warnings(what@, path@, error@),
{
    let mut w: Vec<char> = Vec::new();
    crate::text::push_str(&mut w, "Warning: Failed to ");
    crate::text::push_str(&mut w, what);
    crate::text::push_str(&mut w, " config at ");
    crate::text::push_str(&mut w, path);
    crate::text::push_str(&mut w, ": ");
    crate::text::push_str(&mut w, error);
    assert(w@ =~= "Warning: Failed to "@ + what@ + " config at "@ + path@ + ": "@ + error@);
    let mut out: Vec<String> = Vec::new();
    out.push(crate::text::string_of(&w));
    out.push("Using default configuration.".to_owned());
    assert(crate::lines::strs(out@) =~= load_warnings(what@, path@, error@));
    out
}

impl Config {
    /// Computes `config_file`.
    pub fn config_path(config_dir: Option<&str>) -> (out: String)
        ensures
            out@ == config_file(crate::sandbox::opt_str(config_dir)),
    {
        let base = match config_dir {
            Some(d) => crate::text::chars_of(d),
            None => crate::text::chars_of("."),
        };
        let dir = crate::paths::joined(&base, &crate::text::chars_of("hal"));
        let file = crate::paths::joined(&dir, &crate::text::chars_of("config.json"));
        crate::text::string_of(&file)
    }

    /// The configuration to run with, from what was found in its file. The
    /// stored configuration is used as it is. Without one, the built-in
    /// configuration is used and is to be stored; where a file is there but
    /// cannot be used, the user is warned.
    pub fn load(path: &str, stored: StoredConfig) -> (out: LoadedConfig)
        ensures
            match stored {
                StoredConfig::Parsed(c) => out.config == c && !out.store && out.warnings@.len() == 0,
                StoredConfig::Missing => out.store && out.warnings@.len() == 0,
                StoredConfig::Unreadable(e) => out.store && crate::lines::strs(out.warnings@)
                    == load_warnings("read"@, path@, e@),
                StoredConfig::Unparsable(e) => out.store && crate::lines::strs(out.warnings@)
                    == load_warnings("parse"@, path@, e@),
            },
            out.store ==> out.config.default_provider@ == "gemini"@ && out.config.mode
                == Mode::Coding && out.config.names() == Config::builtin_names()
                && entry_providers(out.config.providers@) == Config::builtin_providers(),
    {
        match stored {
            StoredConfig::Parsed(c) => LoadedConfig { config: c, warnings: Vec::new(), store: false },
            StoredConfig::Missing => LoadedConfig {
                config: Config::default(),
                warnings: Vec::new(),
                store: true,
            },
            StoredConfig::Unreadable(e) => LoadedConfig {
                config: Config::default(),
                warnings: warnings("read", path, e.as_str()),
                store: true,
            },
            StoredConfig::Unparsable(e) => LoadedConfig {
                config: Config::default(),
                warnings: warnings("parse", path, e.as_str()),
                store: true,
            },
        }
    }
}

} // verus!
