//! Submitting a line: the built-in commands, and the message that starts a
//! turn.

use vstd::prelude::*;
use crate::app::{running_ids, App, AppState, Effect};
use crate::command::{command_of, parse_command, Command, CommandView};
use crate::config::{Config, Provider, ProviderEntry};
use crate::editor::Editor;
use crate::fileops::prefixed;
use crate::journal::{
    chat_views, copy_chat, wire_views, ChatMessage, ChatMessageView, RoleView, WireMessage,
    WireMessageView, WireRole,
};
use crate::labels::{build_system_prompt, full_system_prompt, help_text, help_text_of};
use crate::lines::{join, join_strings, position_of, position_of_is_first, strs};
use crate::refs::{
    attached, attachment_views, attachments_for, expand_file_refs, expanded_text, file_ref_paths,
    FileProbe,
};
use crate::sandbox::opt_text;
use crate::session::{list_sessions, sessions_listing, sessions_text, Session};
use crate::sorting::{sort_strings, sorted};
use crate::text::{push_str, str_eq, string_of};
use crate::lines::words_of;

verus! {

/// What the machine was asked for before a line is submitted.
#[derive(Debug)]
pub enum Supply {
    Nothing,
    /// The stored sessions.
    Sessions(Vec<Session>),
    /// The stored session that the line names, or why it cannot be had.
    Loaded(Result<Session, String>),
    /// The value of the environment variable that holds a provider's key.
    Key(Option<String>),
    /// What was found at the paths that the line may refer to.
    Files(Vec<FileProbe>),
}

/// What the machine is to be asked for before the line is submitted.
#[derive(Debug)]
pub enum SubmitNeed {
    Nothing,
    /// The stored sessions.
    Sessions,
    /// The stored session of this id.
    Session(String),
    /// The value of this environment variable.
    Key(String),
    /// What is found at these paths.
    Files(Vec<String>),
}

/// A line of `n` line feeds: the place that an attached file of `n` lines
/// takes in the transcript.
pub open spec fn blank_lines(n: nat) -> Seq<char> {
    Seq::new(n, |i: int| '\n')
}

/// The messages that show the attached files in the transcript.
pub open spec fn attachment_stubs(files: Seq<(Seq<char>, nat)>) -> Seq<ChatMessageView> {
    Seq::new(
        files.len(),
        |i: int|
            ChatMessageView {
                role: RoleView::Tool { name: "read_file"@, path: Some(files[i].0) },
                content: blank_lines(files[i].1),
            },
    )
}

/// The line that lists a provider.
pub open spec fn provider_line(name: Seq<char>, active: Seq<char>) -> Seq<char> {
    if name == active {
        "- **"@ + name + "** (active)"@
    } else {
        "- "@ + name
    }
}

/// What the list of the providers says, for their names in some order.
pub open spec fn providers_text(names: Seq<Seq<char>>, active: Seq<char>) -> Seq<char> {
    "**Providers:**\n"@ + join(Seq::new(names.len(), |i: int| provider_line(names[i], active)), "\n"@)
        + "\n\nSwitch with `/provider <name>`"@
}

/// The wire log after a stored conversation is taken up: the system prompt,
/// then the stored messages but the first.
pub open spec fn restored_wire(system: WireMessageView, stored: Seq<WireMessageView>) -> Seq<
    WireMessageView,
> {
    if stored.len() > 1 {
        seq![system] + stored.subrange(1, stored.len() as int)
    } else {
        seq![system]
    }
}

fn restore_wire(system: WireMessage, stored: &Vec<WireMessage>) -> (out: Vec<WireMessage>)
    requires
        system.role == WireRole::System,
    ensures
        wire_views(out@) == restored_wire(system@, wire_views(stored@)),
        out@.len() >= 1,
        out@[0].role == WireRole::System,
{
    let ghost sys = system@;
    let mut out: Vec<WireMessage> = Vec::new();
    out.push(system);
    assert(wire_views(out@) =~= seq![sys]);
    let mut i: usize = 1;
    while i < stored.len()
        invariant
            1 <= i,
            i <= stored.len() || i == 1,
            out@.len() >= 1,
            out@[0].role == WireRole::System,
            i <= stored.len() ==> wire_views(out@) == seq![sys] + wire_views(stored@).subrange(
                1,
                i as int,
            ),
            i > stored.len() ==> wire_views(out@) == seq![sys],
        decreases stored.len() - i,
    {
        let m = stored[i].clone();
        proof {
            assert(wire_views(out@.push(m)) =~= wire_views(out@).push(m@));
            assert(wire_views(stored@).subrange(1, i + 1) =~= wire_views(stored@).subrange(
                1,
                i as int,
            ).push(m@));
            assert(wire_views(out@).push(m@) =~= seq![sys] + wire_views(stored@).subrange(
                1,
                i + 1,
            ));
        }
        out.push(m);
        i += 1;
    }
    proof {
        assert(wire_views(stored@).len() == stored@.len());
        if stored@.len() == 1 {
            assert(wire_views(stored@).subrange(1, 1) =~= Seq::empty());
            assert(wire_views(out@) =~= seq![sys]);
        }
    }
    out
}

fn blank(n: usize) -> (out: String)
    ensures
        out@ == blank_lines(n as nat),
{
    let mut v: Vec<char> = Vec::new();
    let mut i: usize = 0;
    while i < n
        invariant
            i <= n,
            v@ == blank_lines(i as nat),
        decreases n - i,
    {
        v.push('\n');
        i += 1;
        assert(v@ =~= blank_lines(i as nat));
    }
    string_of(&v)
}

impl App {
    /// The error for a provider that the configuration does not hold.
    pub open spec fn no_provider(name: Seq<char>) -> Seq<char> {
        "Provider '"@ + name + "' not found"@
    }

    /// The error for a provider without a key.
    pub open spec fn no_key(api_key_env: Seq<char>) -> Seq<char> {
        "Set $"@ + api_key_env + " with your API key"@
    }

    /// The application at its start: idle, with an empty line, and with the
    /// stored conversation where one is given. The wire log begins with a
    /// fresh system prompt. `env_key` is the value of the environment variable
    /// that the provider in use names, `context` the project's context file.
    /// It fails where the configuration holds no provider under the name in
    /// use, or where neither the configuration nor the environment holds its
    /// key.
    pub fn new(
        config: Config,
        session: Option<Session>,
        env_key: Option<String>,
        context: Option<String>,
        now: i64,
    ) -> (out: Result<App, String>)
        ensures
            !config.names().contains(config.default_provider@) ==> out is Err && out->Err_0@
                == Self::no_provider(config.default_provider@),
            config.names().contains(config.default_provider@) ==> {
                let p = config.providers@[position_of(config.names(), config.default_provider@)].provider;
                &&& (p.api_key is None && env_key is None) ==> out is Err && out->Err_0@
                    == Self::no_key(p.api_key_env@)
                &&& (p.api_key is Some || env_key is Some) ==> {
                    &&& out is Ok
                    &&& out->Ok_0.wf()
                    &&& out->Ok_0.state is Idle
                    &&& out->Ok_0.config == config
                    &&& out->Ok_0.provider@ == p@
                    &&& out->Ok_0.api_key@ == (match p.api_key {
                        Some(k) => k@,
                        None => env_key->0@,
                    })
                    &&& out->Ok_0.wire() == restored_wire(
                        WireMessage::plain(
                            WireRole::System,
                            full_system_prompt(config.mode, opt_text(context)),
                        ),
                        match session {
                            Some(s) => wire_views(s.api_messages@),
                            None => Seq::empty(),
                        },
                    )
                    &&& out->Ok_0.chat() == (match session {
                        Some(s) => chat_views(s.messages@),
                        None => Seq::empty(),
                    })
                    &&& out->Ok_0.session.updated_at == now
                    &&& session is Some ==> out->Ok_0.session.id == session->0.id
                        && out->Ok_0.session.title == session->0.title
                        && out->Ok_0.session.created_at == session->0.created_at
                    &&& session is None ==> out->Ok_0.session.created_at == now
                    &&& out->Ok_0.editor.fresh()
                    &&& out->Ok_0.scroll_offset == 0
                    &&& !out->Ok_0.cancel_flag
                    &&& out->Ok_0.error is None
                    &&& out->Ok_0.token_usage is None
                    &&& !out->Ok_0.should_quit
                    &&& out->Ok_0.temp_allowed_paths@.len() == 0
                }
            },
    {
        proof {
            position_of_is_first(config.names(), config.default_provider@);
        }
        let provider = match config.get_provider() {
            Some(p) => p.clone(),
            None => {
                let mut e: Vec<char> = Vec::new();
                push_str(&mut e, "Provider '");
                push_str(&mut e, config.default_provider.as_str());
                push_str(&mut e, "' not found");
                assert(e@ =~= Self::no_provider(config.default_provider@));
                return Err(string_of(&e));
            },
        };
        let api_key = match &provider.api_key {
            Some(k) => k.clone(),
            None => match env_key {
                Some(k) => k,
                None => {
                    let mut e: Vec<char> = Vec::new();
                    push_str(&mut e, "Set $");
                    push_str(&mut e, provider.api_key_env.as_str());
                    push_str(&mut e, " with your API key");
                    assert(e@ =~= Self::no_key(provider.api_key_env@));
                    return Err(string_of(&e));
                },
            },
        };
        let prompt = build_system_prompt(
            &config.mode,
            match &context {
                Some(c) => Some(c.as_str()),
                None => None,
            },
        );
        let system = WireMessage::system(prompt.as_str());
        let (messages, api_messages, session) = match session {
            Some(s) => {
                let mut s = s;
                let api_messages = restore_wire(system, &s.api_messages);
                s.updated_at = now;
                let messages = copy_chat(&s.messages);
                (messages, api_messages, s)
            },
            None => {
                let empty: Vec<WireMessage> = Vec::new();
                assert(wire_views(empty@) =~= Seq::empty());
                let api_messages = restore_wire(system, &empty);
                let messages: Vec<ChatMessage> = Vec::new();
                assert(chat_views(messages@) =~= Seq::empty());
                (messages, api_messages, Session::new(now))
            },
        };
        Ok(
            App {
                config,
                editor: Editor::new(),
                messages,
                api_messages,
                state: AppState::Idle,
                scroll_offset: 0,
                should_quit: false,
                error: None,
                token_usage: None,
                permission_modal: None,
                temp_allowed_paths: Vec::new(),
                api_key,
                provider,
                pending_response: false,
                pending_tool_calls: Vec::new(),
                pending_tool_execution: None,
                session,
                cancel_flag: false,
                turn_start: 0,
            },
        )
    }
}

} // verus!

verus! {

/// The note for a provider that was switched to.
pub open spec fn switched_text(name: Seq<char>, model: Seq<char>) -> Seq<char> {
    "Switched to **"@ + name + "** ("@ + model + ")"@
}

/// The note for a provider that has no key.
pub open spec fn keyless_text(name: Seq<char>, api_key_env: Seq<char>) -> Seq<char> {
    "No API key for **"@ + name + "**. Set it with `/key <key>` after switching, or set $"@
        + api_key_env
}

/// The key of a provider: the one that the configuration holds, else the one
/// that the environment was found to hold.
pub open spec fn key_for(p: Provider, supply: Supply) -> Option<Seq<char>> {
    match p.api_key {
        Some(k) => Some(k@),
        None => match supply {
            Supply::Key(Some(k)) => Some(k@),
            _ => None,
        },
    }
}

/// What was found at the paths that a line may refer to, as far as the
/// supply says.
pub open spec fn probes_of(supply: Supply) -> Seq<FileProbe> {
    match supply {
        Supply::Files(p) => p@,
        _ => Seq::empty(),
    }
}

/// The history after a line is submitted: the line is added unless it is the
/// last one already.
pub open spec fn history_with(history: Seq<Seq<char>>, line: Seq<char>) -> Seq<Seq<char>> {
    if history.len() > 0 && history.last() == line {
        history
    } else {
        history.push(line)
    }
}

impl App {
    /// Whether the line is empty, and the rest of the editor that of `old`.
    pub open spec fn input_cleared(&self, old: &App) -> bool {
        &&& self.editor.input@.len() == 0
        &&& self.editor.input_cursor == 0
        &&& self.editor.same_history(&old.editor)
        &&& self.editor.same_picker(&old.editor)
    }

    /// Whether the flags of the screen are those of `old`.
    pub open spec fn same_flags(&self, old: &App) -> bool {
        &&& self.scroll_offset == old.scroll_offset
        &&& self.should_quit == old.should_quit
        &&& self.error == old.error
        &&& self.token_usage == old.token_usage
    }

    /// Whether a note of the assistant was added to the transcript of `old`
    /// and the line emptied, and nothing else changed but the settings.
    pub open spec fn noted(&self, old: &App, text: Seq<char>) -> bool {
        &&& self.chat() == old.chat().push(
            ChatMessageView { role: RoleView::Assistant, content: text },
        )
        &&& self.api_messages == old.api_messages
        &&& self.same_turn(old)
        &&& self.session == old.session
        &&& self.input_cleared(old)
        &&& self.same_flags(old)
        &&& self.temp_allowed_paths == old.temp_allowed_paths
    }

    fn note(&mut self, text: &str)
        requires
            old(self).wf(),
        ensures
            final(self).wf(),
            final(self).noted(old(self), text@),
            final(self).same_settings(old(self)),
    {
        let m = ChatMessage::assistant(text);
        assert(chat_views(self.messages@.push(m)) =~= self.chat().push(m@));
        self.messages.push(m);
        self.editor.clear_input();
    }

    /// What `/clear` leaves: an empty transcript, the system prompt alone in
    /// the wire log, an empty line, no token usage, and a fresh session.
    pub open spec fn cleared(&self, old: &App, now: i64) -> bool {
        &&& self.chat() == Seq::<ChatMessageView>::empty()
        &&& self.wire() == old.wire().take(1)
        &&& self.input_cleared(old)
        &&& self.token_usage is None
        &&& self.session.id@ == crate::lines::signed_decimal(now as int)
        &&& self.session.created_at == now
        &&& self.session.updated_at == now
        &&& self.session.title@.len() == 0
        &&& self.session.messages@.len() == 0
        &&& self.session.api_messages@.len() == 0
        &&& self.same_turn(old)
        &&& self.same_settings(old)
        &&& self.scroll_offset == old.scroll_offset
        &&& self.should_quit == old.should_quit
        &&& self.error == old.error
    }

    fn clear(&mut self, now: i64) -> (out: Effect)
        requires
            old(self).wf(),
            old(self).state is Idle,
        ensures
            final(self).wf(),
            final(self).cleared(old(self), now),
            old(self).saves(now, out),
    {
        let out = self.save_session(now);
        self.messages = Vec::new();
        let ghost before = self.wire();
        self.api_messages.truncate(1);
        proof {
            assert(chat_views(self.messages@) =~= Seq::empty());
            assert(self.wire() =~= before.take(1));
        }
        self.editor.clear_input();
        self.token_usage = None;
        self.session = Session::new(now);
        out
    }

    /// What `/quit` leaves: the wish to quit, and nothing else changed but
    /// the session.
    pub open spec fn quitting(&self, old: &App) -> bool {
        &&& self.should_quit
        &&& self.same_journal(old)
        &&& self.same_turn(old)
        &&& self.same_settings(old)
        &&& self.editor == old.editor
        &&& self.scroll_offset == old.scroll_offset
        &&& self.error == old.error
        &&& self.token_usage == old.token_usage
    }

    /// What `/sessions` leaves for the sessions supplied: the list of the
    /// sessions, the one updated last first, as a note.
    pub open spec fn listed_sessions(&self, old: &App, supply: Supply) -> bool {
        match supply {
            Supply::Sessions(list) => self.noted(old, sessions_text(crate::session::listed(list@))),
            _ => self.noted(old, sessions_text(Seq::empty())),
        }
    }

    fn show_sessions(&mut self, supply: Supply)
        requires
            old(self).wf(),
        ensures
            final(self).wf(),
            final(self).listed_sessions(old(self), supply),
            final(self).same_settings(old(self)),
    {
        let list = match supply {
            Supply::Sessions(list) => list,
            _ => Vec::new(),
        };
        let ordered = list_sessions(list);
        let text = sessions_listing(&ordered);
        self.note(text.as_str());
    }

    /// What `/provider` leaves: the list of the providers, sorted by name,
    /// the one in use marked, as a note.
    pub open spec fn listed_providers(&self, old: &App) -> bool {
        exists|names: Seq<Seq<char>>|
            sorted(names) && names.to_multiset() == old.config.names().to_multiset()
                && #[trigger] self.noted(old, providers_text(names, old.config.default_provider@))
    }

    fn show_providers(&mut self)
        requires
            old(self).wf(),
        ensures
            final(self).wf(),
            final(self).listed_providers(old(self)),
            final(self).same_settings(old(self)),
    {
        let mut names: Vec<String> = Vec::new();
        let mut i: usize = 0;
        while i < self.config.providers.len()
            invariant
                i <= self.config.providers.len(),
                names.len() == i,
                forall|j: int| 0 <= j < i ==> names@[j]@ == self.config.providers@[j].name@,
            decreases self.config.providers.len() - i,
        {
            names.push(self.config.providers[i].name.clone());
            i += 1;
        }
        assert(strs(names@) =~= self.config.names());
        sort_strings(&mut names);
        let mut lines: Vec<String> = Vec::new();
        let mut k: usize = 0;
        while k < names.len()
            invariant
                k <= names.len(),
                lines.len() == k,
                forall|j: int|
                    0 <= j < k ==> lines@[j]@ == provider_line(
                        names@[j]@,
                        self.config.default_provider@,
                    ),
            decreases names.len() - k,
        {
            let line = if str_eq(names[k].as_str(), self.config.default_provider.as_str()) {
                let mut l: Vec<char> = Vec::new();
                push_str(&mut l, "- **");
                push_str(&mut l, names[k].as_str());
                push_str(&mut l, "** (active)");
                assert(l@ =~= "- **"@ + names@[k as int]@ + "** (active)"@);
                string_of(&l)
            } else {
                prefixed("- ", names[k].as_str())
            };
            lines.push(line);
            k += 1;
        }
        let ghost ns = strs(names@);
        assert(strs(lines@) =~= Seq::new(
            ns.len(),
            |i: int| provider_line(ns[i], self.config.default_provider@),
        ));
        let body = join_strings(&lines, "\n");
        let mut text: Vec<char> = Vec::new();
        push_str(&mut text, "**Providers:**\n");
        push_str(&mut text, body.as_str());
        push_str(&mut text, "\n\nSwitch with `/provider <name>`");
        assert(text@ =~= providers_text(ns, self.config.default_provider@));
        let t = string_of(&text);
        self.note(t.as_str());
        assert(self.noted(old(self), providers_text(ns, old(self).config.default_provider@)));
    }

    /// What `/provider` with a name leaves. For a name that the
    /// configuration does not hold, a note that says so. For a provider
    /// without a key, in the configuration and in the environment, a note
    /// that says so. Else the provider is in use from now on, with its key,
    /// the configuration is to be saved, and a note says so.
    pub open spec fn switched(&self, old: &App, name: Seq<char>, supply: Supply, out: Effect) -> bool {
        let i = position_of(old.config.names(), name);
        if i >= old.config.providers@.len() {
            &&& out is Nothing
            &&& self.noted(old, "Unknown provider: "@ + name)
            &&& self.same_settings(old)
        } else {
            let p = old.config.providers@[i].provider;
            match key_for(p, supply) {
                None => {
                    &&& out is Nothing
                    &&& self.noted(old, keyless_text(name, p.api_key_env@))
                    &&& self.same_settings(old)
                },
                Some(key) => {
                    &&& out is SaveConfig
                    &&& self.noted(old, switched_text(name, p.model@))
                    &&& self.config.default_provider@ == name
                    &&& self.config.mode == old.config.mode
                    &&& self.config.providers == old.config.providers
                    &&& self.provider@ == p@
                    &&& self.api_key@ == key
                },
            }
        }
    }

    fn switch_provider(&mut self, name: String, supply: Supply) -> (out: Effect)
        requires
            old(self).wf(),
        ensures
            final(self).wf(),
            final(self).switched(old(self), name@, supply, out),
    {
        let found = self.config.find(name.as_str());
        match found {
            None => {
                let t = prefixed("Unknown provider: ", name.as_str());
                self.note(t.as_str());
                Effect::Nothing
            },
            Some(i) => {
                let p = self.config.providers[i].provider.clone();
                let key = match &p.api_key {
                    Some(k) => Some(k.clone()),
                    None => match supply {
                        Supply::Key(Some(k)) => Some(k),
                        _ => None,
                    },
                };
                match key {
                    Some(key) => {
                        let mut t: Vec<char> = Vec::new();
                        push_str(&mut t, "Switched to **");
                        push_str(&mut t, name.as_str());
                        push_str(&mut t, "** (");
                        push_str(&mut t, p.model.as_str());
                        push_str(&mut t, ")");
                        assert(t@ =~= switched_text(name@, p.model@));
                        self.config.default_provider = name;
                        self.provider = p;
                        self.api_key = key;
                        self.note(string_of(&t).as_str());
                        proof {
                            assert(self.chat() == old(self).chat().push(
                                ChatMessageView {
                                    role: RoleView::Assistant,
                                    content: switched_text(
                                        name@,
                                        old(self).config.providers@[i as int].provider.model@,
                                    ),
                                },
                            ));
                        }
                        Effect::SaveConfig
                    },
                    None => {
                        let mut t: Vec<char> = Vec::new();
                        push_str(&mut t, "No API key for **");
                        push_str(&mut t, name.as_str());
                        push_str(&mut t, "**. Set it with `/key <key>` after switching, or set $");
                        push_str(&mut t, p.api_key_env.as_str());
                        assert(t@ =~= keyless_text(name@, p.api_key_env@));
                        self.note(string_of(&t).as_str());
                        Effect::Nothing
                    },
                }
            },
        }
    }

    /// What `/key` with a key leaves: the key is in use from now on and
    /// stored with the provider in use, the configuration is to be saved, and
    /// a note says so. An empty key is refused with an error.
    pub open spec fn key_set(&self, old: &App, key: Seq<char>, out: Effect) -> bool {
        if key.len() == 0 {
            &&& out is Nothing
            &&& self.error is Some
            &&& self.error->0@ == "API key cannot be empty"@
            &&& self.same_journal(old)
            &&& self.same_turn(old)
            &&& self.same_settings(old)
            &&& self.session == old.session
            &&& self.input_cleared(old)
            &&& self.token_usage == old.token_usage
        } else {
            let i = position_of(old.config.names(), old.config.default_provider@);
            &&& out is SaveConfig
            &&& self.chat() == old.chat().push(
                ChatMessageView {
                    role: RoleView::Assistant,
                    content: "API key updated for **"@ + old.config.default_provider@ + "**"@,
                },
            )
            &&& self.api_messages == old.api_messages
            &&& self.same_turn(old)
            &&& self.session == old.session
            &&& self.input_cleared(old)
            &&& self.same_flags(old)
            &&& self.api_key@ == key
            &&& self.config.default_provider == old.config.default_provider
            &&& self.config.mode == old.config.mode
            &&& self.config.names() == old.config.names()
            &&& i < old.config.providers@.len() ==> {
                &&& self.provider@ == self.config.providers@[i].provider@
                &&& self.provider@.api_key == Some(key)
                &&& self.provider@.base_url == old.config.providers@[i].provider@.base_url
                &&& self.provider@.model == old.config.providers@[i].provider@.model
                &&& self.provider@.api_key_env == old.config.providers@[i].provider@.api_key_env
                &&& forall|j: int|
                    0 <= j < old.config.providers@.len() && j != i ==> self.config.providers@[j]
                        == old.config.providers@[j]
            }
            &&& i >= old.config.providers@.len() ==> self.config.providers == old.config.providers
                && self.provider == old.provider
        }
    }

    fn set_key(&mut self, key: String) -> (out: Effect)
        requires
            old(self).wf(),
        ensures
            final(self).wf(),
            final(self).key_set(old(self), key@, out),
    {
        if key.as_str().is_empty() {
            self.error = Some("API key cannot be empty".to_owned());
            self.editor.clear_input();
            return Effect::Nothing;
        }
        let found = self.config.find(self.config.default_provider.as_str());
        match found {
            Some(i) => {
                let old_entry = &self.config.providers[i];
                let p = Provider {
                    base_url: old_entry.provider.base_url.clone(),
                    model: old_entry.provider.model.clone(),
                    api_key_env: old_entry.provider.api_key_env.clone(),
                    api_key: Some(key.clone()),
                };
                let entry = ProviderEntry { name: old_entry.name.clone(), provider: p.clone() };
                self.config.providers.set(i, entry);
                self.provider = p;
                assert(self.config.names() =~= old(self).config.names());
            },
            None => {},
        }
        self.api_key = key;
        let mut t: Vec<char> = Vec::new();
        push_str(&mut t, "API key updated for **");
        push_str(&mut t, self.config.default_provider.as_str());
        push_str(&mut t, "**");
        assert(t@ =~= "API key updated for **"@ + self.config.default_provider@ + "**"@);
        self.note(string_of(&t).as_str());
        Effect::SaveConfig
    }

    /// What `/load` leaves for the session supplied. The stored conversation
    /// takes the place of the current one, which is to be saved first; the
    /// system prompt stays. Where the session cannot be had, an error says
    /// why.
    pub open spec fn loaded(&self, old: &App, supply: Supply, now: i64, out: Effect) -> bool {
        &&& self.input_cleared(old)
        &&& self.same_turn(old)
        &&& self.same_settings(old)
        &&& self.scroll_offset == old.scroll_offset
        &&& self.should_quit == old.should_quit
        &&& match supply {
            Supply::Loaded(Ok(s)) => {
                &&& old.saves(now, out)
                &&& self.chat() == chat_views(s.messages@)
                &&& self.wire() == restored_wire(old.wire()[0], wire_views(s.api_messages@))
                &&& self.session == s
                &&& self.token_usage is None
                &&& self.error == old.error
            },
            Supply::Loaded(Err(e)) => {
                &&& out is Nothing
                &&& self.error is Some
                &&& self.error->0@ == "Failed to load session: "@ + e@
                &&& self.same_journal(old)
                &&& self.session == old.session
                &&& self.token_usage == old.token_usage
            },
            _ => {
                &&& out is Nothing
                &&& self.error is Some
                &&& self.error->0@ == "Failed to load session: no session was supplied"@
                &&& self.same_journal(old)
                &&& self.session == old.session
                &&& self.token_usage == old.token_usage
            },
        }
    }

    fn load(&mut self, supply: Supply, now: i64) -> (out: Effect)
        requires
            old(self).wf(),
            old(self).state is Idle,
        ensures
            final(self).wf(),
            final(self).loaded(old(self), supply, now, out),
    {
        let out = match supply {
            Supply::Loaded(Ok(s)) => {
                let out = self.save_session(now);
                let system = self.api_messages[0].clone();
                assert(system@ == self.wire()[0]);
                self.api_messages = restore_wire(system, &s.api_messages);
                self.messages = copy_chat(&s.messages);
                self.session = s;
                self.token_usage = None;
                out
            },
            Supply::Loaded(Err(e)) => {
                self.error = Some(prefixed("Failed to load session: ", e.as_str()));
                Effect::Nothing
            },
            _ => {
                self.error = Some("Failed to load session: no session was supplied".to_owned());
                Effect::Nothing
            },
        };
        self.editor.clear_input();
        out
    }
}

} // verus!

verus! {

impl App {
    /// What submitting a message leaves: the message in the history and in
    /// the transcript, after it one entry for each attached file; the
    /// expanded message at the end of the wire log; an empty line; and the
    /// agent waiting for the model.
    pub open spec fn sent(&self, old: &App, text: Seq<char>, supply: Supply) -> bool {
        let probes = probes_of(supply);
        &&& self.state is Thinking
        &&& self.pending_response
        &&& !self.cancel_flag
        &&& self.pending_tool_calls@.len() == 0
        &&& self.pending_tool_execution is None
        &&& self.permission_modal is None
        &&& self.turn_start == old.wire().len()
        &&& self.settled()
        &&& strs(self.editor.history@) == history_with(strs(old.editor.history@), text)
        &&& self.editor.history_pos == self.editor.history@.len()
        &&& self.editor.input@.len() == 0
        &&& self.editor.input_cursor == 0
        &&& self.editor.saved_input == old.editor.saved_input
        &&& self.editor.files_cache == old.editor.files_cache
        &&& self.editor.same_picker(&old.editor)
        &&& self.chat() == old.chat().push(ChatMessageView { role: RoleView::User, content: text })
            + attachment_stubs(attachments_for(attached(words_of(text), probes), probes))
        &&& self.wire() == old.wire().push(
            WireMessage::plain(WireRole::User, expanded_text(text, probes)),
        )
        &&& self.same_settings(old)
        &&& self.session == old.session
        &&& self.same_flags(old)
    }

    fn send(&mut self, text: String, supply: Supply)
        requires
            old(self).wf(),
            old(self).state is Idle,
        ensures
            final(self).wf(),
            final(self).sent(old(self), text@, supply),
    {
        let n = self.editor.history.len();
        let repeated = n > 0 && str_eq(self.editor.history[n - 1].as_str(), text.as_str());
        proof {
            assert(strs(self.editor.history@).len() == n);
            if n > 0 {
                assert(strs(self.editor.history@).last() == self.editor.history@[n - 1]@);
            }
        }
        if !repeated {
            let copy = text.clone();
            assert(strs(self.editor.history@.push(copy)) =~= strs(self.editor.history@).push(copy@));
            self.editor.history.push(copy);
        }
        self.editor.history_pos = self.editor.history.len();
        let none: Vec<FileProbe> = Vec::new();
        let expanded = match &supply {
            Supply::Files(probes) => expand_file_refs(text.as_str(), probes),
            _ => expand_file_refs(text.as_str(), &none),
        };
        let ghost files = attachment_views(expanded.files_read@);
        let user = ChatMessage::user(text.as_str());
        let ghost base = self.chat().push(user@);
        assert(chat_views(self.messages@.push(user)) =~= base);
        self.messages.push(user);
        let mut i: usize = 0;
        assert(attachment_stubs(files).take(0) =~= Seq::empty());
        while i < expanded.files_read.len()
            invariant
                i <= expanded.files_read.len(),
                files == attachment_views(expanded.files_read@),
                self.chat() == base + attachment_stubs(files).take(i as int),
                self.api_messages == old(self).api_messages,
                self.state == old(self).state,
                self.pending_response == old(self).pending_response,
                self.pending_tool_calls == old(self).pending_tool_calls,
                self.pending_tool_execution == old(self).pending_tool_execution,
                self.permission_modal == old(self).permission_modal,
                self.cancel_flag == old(self).cancel_flag,
                self.same_settings(old(self)),
                self.session == old(self).session,
                self.same_flags(old(self)),
                strs(self.editor.history@) == history_with(strs(old(self).editor.history@), text@),
                self.editor.history_pos == self.editor.history@.len(),
                self.editor.input == old(self).editor.input,
                self.editor.input_cursor == old(self).editor.input_cursor,
                self.editor.saved_input == old(self).editor.saved_input,
                self.editor.files_cache == old(self).editor.files_cache,
                self.editor.same_picker(&old(self).editor),
            decreases expanded.files_read.len() - i,
        {
            let a = &expanded.files_read[i];
            let stub = ChatMessage::tool("read_file", Some(a.path.clone()), blank(a.lines).as_str());
            proof {
                assert(stub@ == attachment_stubs(files)[i as int]);
                assert(chat_views(self.messages@.push(stub)) =~= self.chat().push(stub@));
                assert(attachment_stubs(files).take(i + 1) =~= attachment_stubs(files).take(
                    i as int,
                ).push(stub@));
                assert(self.chat().push(stub@) =~= base + attachment_stubs(files).take(i + 1));
            }
            self.messages.push(stub);
            i += 1;
        }
        assert(attachment_stubs(files).take(i as int) =~= attachment_stubs(files));
        let w = WireMessage::user(expanded.text.as_str());
        self.turn_start = self.api_messages.len();
        proof {
            assert(wire_views(self.api_messages@.push(w)) =~= self.wire().push(w@));
            assert(self.wire().len() == self.api_messages@.len());
            crate::turn::tail_after_push(self.wire(), self.turn_start as int, w@);
            assert(self.turn_log() =~= Seq::empty());
            crate::turn::expected_after_push(self.turn_log(), w@);
            assert(running_ids(self.pending_tool_execution) + crate::turn::queue_ids(
                self.pending_tool_calls@,
            ) =~= Seq::<Seq<char>>::empty());
        }
        self.api_messages.push(w);
        self.editor.input = String::new();
        self.editor.input_cursor = 0;
        self.state = AppState::Thinking;
        self.start_api_call();
    }

    /// Says what the machine is to be asked for before the line is
    /// submitted: the stored sessions for `/sessions`, the session for
    /// `/load`, the key in the environment for `/provider` with the name of a
    /// provider that has no key, and what is at the paths that a message may
    /// refer to. While the agent is busy, nothing.
    pub fn submit_needs(&self) -> (out: SubmitNeed)
        ensures
            !(self.state is Idle) ==> out is Nothing,
            self.state is Idle ==> match command_of(self.editor.input@) {
                CommandView::Sessions => out is Sessions,
                CommandView::Load(id) => out is Session && out->Session_0@ == id,
                CommandView::SwitchProvider(name) => {
                    let i = position_of(self.config.names(), name);
                    if i < self.config.providers@.len()
                        && self.config.providers@[i].provider.api_key is None {
                        out is Key && out->Key_0@ == self.config.providers@[i].provider.api_key_env@
                    } else {
                        out is Nothing
                    }
                },
                CommandView::Message(text) => out is Files && strs(out->Files_0@)
                    == crate::refs::reference_paths(words_of(text)),
                _ => out is Nothing,
            },
    {
        if !self.is_idle() {
            return SubmitNeed::Nothing;
        }
        match parse_command(self.editor.input.as_str()) {
            Command::Sessions => SubmitNeed::Sessions,
            Command::Load(id) => SubmitNeed::Session(id),
            Command::SwitchProvider(name) => match self.config.find(name.as_str()) {
                Some(i) => match &self.config.providers[i].provider.api_key {
                    Some(_) => SubmitNeed::Nothing,
                    None => SubmitNeed::Key(self.config.providers[i].provider.api_key_env.clone()),
                },
                None => SubmitNeed::Nothing,
            },
            Command::Message(text) => SubmitNeed::Files(file_ref_paths(text.as_str())),
            _ => SubmitNeed::Nothing,
        }
    }

    /// What submitting the line makes of the application `pre`, and what is to be done then.
    pub open spec fn submitted(pre: &App, post: &App, supply: Supply, now: i64, out: Effect) -> bool {
        &&& !(pre.state is Idle) ==> out is Nothing && *post == *pre
        &&& pre.state is Idle ==> match command_of(pre.editor.input@) {
            CommandView::Empty => out is Nothing && *post == *pre,
            CommandView::Quit => post.quitting(pre) && pre.saves(now, out),
            CommandView::Clear => post.cleared(pre, now) && pre.saves(
                now,
                out,
            ),
            CommandView::Sessions => out is Nothing && post.listed_sessions(
                pre,
                supply,
            ) && post.same_settings(pre),
            CommandView::Help => out is Nothing && post.noted(pre, help_text_of())
                && post.same_settings(pre),
            CommandView::Providers => out is Nothing && post.listed_providers(pre)
                && post.same_settings(pre),
            CommandView::SwitchProvider(name) => post.switched(
                pre,
                name,
                supply,
                out,
            ),
            CommandView::SetKey(key) => post.key_set(pre, key, out),
            CommandView::Load(id) => post.loaded(pre, supply, now, out),
            CommandView::Message(text) => out is CallModel && post.sent(
                pre,
                text,
                supply,
            ),
        }
    }

    /// Submits the line. A built-in command is carried out at once and never
    /// reaches the wire log; anything else is a message that starts a turn,
    /// with the request to the model as its effect. A blank line does
    /// nothing, and nothing is submitted while the agent is busy. `supply`
    /// holds what `submit_needs` asked for; what it lacks counts as not
    /// there.
    pub fn submit_input(&mut self, supply: Supply, now: i64) -> (out: Effect)
        requires
            old(self).wf(),
        ensures
            final(self).wf(),
            App::submitted(old(self), final(self), supply, now, out),
    {
        if !self.is_idle() {
            return Effect::Nothing;
        }
        match parse_command(self.editor.input.as_str()) {
            Command::Empty => Effect::Nothing,
            Command::Quit => {
                let out = self.save_session(now);
                self.should_quit = true;
                out
            },
            Command::Clear => {
                self.clear(now)
            },
            Command::Sessions => {
                self.show_sessions(supply);
                Effect::Nothing
            },
            Command::Help => {
                self.note(help_text());
                Effect::Nothing
            },
            Command::Providers => {
                self.show_providers();
                Effect::Nothing
            },
            Command::SwitchProvider(name) => self.switch_provider(name, supply),
            Command::SetKey(key) => self.set_key(key),
            Command::Load(_) => self.load(supply, now),
            Command::Message(text) => {
                self.send(text, supply);
                Effect::CallModel
            },
        }
    }
}

} // verus!
