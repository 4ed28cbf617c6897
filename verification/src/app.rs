//! The agent's turn controller: what the application holds, and how it goes
//! from one state to the next when the user submits a line, the model
//! answers, a tool finishes or a permission is decided.
//!
//! Nothing here waits or touches the machine. Each step takes what happened
//! and says, as an `Effect`, what is to be done next.

use vstd::prelude::*;
use crate::api::ApiResponse;
use crate::config::{Config, Provider};
use crate::editor::Editor;
use crate::journal::{
    chat_views, copy_strings, wire_views, ChatMessage, ChatMessageView, WireMessage,
    WireMessageView, WireRole,
};
use crate::json::{json_text, text_field, text_or};
use crate::lines::strs;
use crate::sandbox::{
    detect_required_paths, missing_among, request_views, required_paths, uncovered, PathRequest,
    SandboxConfig, ToolchainEnv,
};
use crate::session::Session;
use crate::turn::{expected, queue_ids, ToolCall};

verus! {

/// What the agent is doing.
#[derive(Debug)]
pub enum AppState {
    /// Nothing: it waits for the user.
    Idle,
    /// It waits for the model.
    Thinking,
    /// It runs the tool that the label names.
    ToolCall(String),
}

/// The question whether a command may write to a path.
#[derive(Debug)]
pub struct PermissionModal {
    pub path: String,
    pub reason: String,
    pub options: Vec<&'static str>,
    pub selected: usize,
    /// The id of the tool call that waits for the answer.
    pub pending_tool_id: String,
}

impl PermissionModal {
    /// Whether the modal offers the four answers.
    pub open spec fn offers_all(&self) -> bool {
        &&& self.options@.len() == 4
        &&& self.options@[0]@ == "Allow for project"@
        &&& self.options@[1]@ == "Allow globally"@
        &&& self.options@[2]@ == "Allow once"@
        &&& self.options@[3]@ == "Deny"@
    }

    /// The question for a path, with the first answer selected.
    pub fn new(path: String, reason: String, tool_id: String) -> (out: Self)
        ensures
            out.path == path,
            out.reason == reason,
            out.pending_tool_id == tool_id,
            out.selected == 0,
            out.offers_all(),
    {
        let mut options: Vec<&'static str> = Vec::new();
        options.push("Allow for project");
        options.push("Allow globally");
        options.push("Allow once");
        options.push("Deny");
        PermissionModal { path, reason, options, selected: 0, pending_tool_id: tool_id }
    }
}

/// The tool that is running.
#[derive(Debug)]
pub struct RunningTool {
    pub id: String,
    pub name: String,
    /// The file that the tool works on, where its arguments name one.
    pub path: Option<String>,
}

/// What the machine looks like when a step is taken.
#[derive(Debug)]
pub struct Surroundings {
    /// The time, in seconds since the epoch.
    pub now: i64,
    /// The allow-list as it is stored: the global one and the project's,
    /// merged.
    pub sandbox: SandboxConfig,
    pub toolchain: ToolchainEnv,
}

/// What is to be done after a step.
#[derive(Debug)]
pub enum Effect {
    Nothing,
    /// Store the session.
    SaveSession(Session),
    /// Store the configuration.
    SaveConfig,
    /// Send the wire log to the model.
    CallModel,
    /// Run the tool call; a shell command may write to the paths given.
    RunTool { call: ToolCall, allowed_paths: Vec<String> },
    /// Add the path to the project's allow-list, then report with
    /// `permission_stored`.
    GrantProject(String),
    /// Add the path to the global allow-list, then report with
    /// `permission_stored`.
    GrantGlobal(String),
}

/// What is known of the request to the model.
#[derive(Debug)]
pub enum ModelPoll {
    /// Nothing yet.
    Waiting,
    /// The answer, or the error of the request.
    Reply(Result<ApiResponse, String>),
    /// The worker is gone without an answer.
    Disconnected,
}

/// What is known of the running tool.
#[derive(Debug)]
pub enum ToolPoll {
    /// Nothing yet.
    Waiting,
    /// The result of the tool.
    Finished(String),
    /// The worker is gone without a result.
    Disconnected,
}

/// The application.
#[derive(Debug)]
pub struct App {
    pub config: Config,
    pub editor: Editor,
    /// The transcript that the user sees.
    pub messages: Vec<ChatMessage>,
    /// The wire log: what the model is sent. It begins with the system prompt.
    pub api_messages: Vec<WireMessage>,
    pub state: AppState,
    pub scroll_offset: u16,
    pub should_quit: bool,
    pub error: Option<String>,
    /// The tokens of the last request: prompt and completion.
    pub token_usage: Option<(u32, u32)>,
    pub permission_modal: Option<PermissionModal>,
    /// The paths allowed for as long as the application runs.
    pub temp_allowed_paths: Vec<String>,
    pub api_key: String,
    pub provider: Provider,
    /// Whether a request to the model is in flight.
    pub pending_response: bool,
    /// The tool calls that are yet to be run, the next one first.
    pub pending_tool_calls: Vec<ToolCall>,
    /// The tool that is running, if one is.
    pub pending_tool_execution: Option<RunningTool>,
    pub session: Session,
    /// Whether the work in flight was abandoned.
    pub cancel_flag: bool,
    /// Where in the wire log the turn began: the position of the message of
    /// the user that started it.
    pub turn_start: usize,
}

/// The ids of the running tool, if one is running.
pub open spec fn running_ids(r: Option<RunningTool>) -> Seq<Seq<char>> {
    match r {
        Some(t) => seq![t.id@],
        None => seq![],
    }
}

/// The shell command of a call of `bash`; empty where it names none.
pub open spec fn bash_command(arguments: Seq<char>) -> Seq<char> {
    text_or(json_text(arguments, "command"@), ""@)
}

/// The paths that a call of `bash` asks for and that are not allowed.
pub open spec fn missing_for(arguments: Seq<char>, env: &Surroundings, temp: Seq<Seq<char>>) -> Seq<
    (Seq<char>, Seq<char>),
> {
    if bash_command(arguments).len() == 0 {
        seq![]
    } else {
        uncovered(
            required_paths(bash_command(arguments), env.toolchain@),
            env.sandbox.paths() + temp,
        )
    }
}

impl App {
    /// The wire log as a sequence of messages.
    pub open spec fn wire(&self) -> Seq<WireMessageView> {
        wire_views(self.api_messages@)
    }

    /// The transcript as a sequence of messages.
    pub open spec fn chat(&self) -> Seq<ChatMessageView> {
        chat_views(self.messages@)
    }

    /// Whether nothing is pending: no request to the model, no running tool,
    /// no tool call in the queue, no question.
    pub open spec fn nothing_pending(&self) -> bool {
        &&& !self.pending_response
        &&& self.pending_tool_execution is None
        &&& self.pending_tool_calls@.len() == 0
        &&& self.permission_modal is None
    }

    /// Whether the tool calls of the model are being worked on.
    pub open spec fn in_tool_phase(&self) -> bool {
        !(self.state is Idle) && !self.pending_response
    }

    /// The wire log of the turn: what was added to the wire log since the
    /// turn began.
    pub open spec fn turn_log(&self) -> Seq<WireMessageView> {
        self.wire().subrange(self.turn_start as int, self.wire().len() as int)
    }

    /// The ids of the calls whose results are due: that of the running tool,
    /// then those of the queue.
    pub open spec fn due(&self) -> Seq<Seq<char>> {
        running_ids(self.pending_tool_execution) + queue_ids(self.pending_tool_calls@)
    }

    /// Whether the wire log of the turn is in order: the turn began, after
    /// the system prompt, with a message of the user, and the calls that the
    /// wire log of the turn has asked for and not answered yet are those
    /// whose results are due.
    pub open spec fn turn_in_order(&self) -> bool {
        &&& 1 <= self.turn_start < self.api_messages@.len()
        &&& self.api_messages@[self.turn_start as int].role == WireRole::User
        &&& expected(self.turn_log()) == Some(self.due())
    }

    /// The invariant of the application. The agent is idle if and only if
    /// nothing is pending; at most one of a request to the model, a running
    /// tool and a question is there at a time; the wire log begins with the
    /// system prompt; and during a turn the wire log of the turn is in order:
    /// every call that the assistant asked for is answered, running or in
    /// the queue, in the order of the calls.
    pub open spec fn wf(&self) -> bool {
        &&& self.editor.wf()
        &&& self.api_messages@.len() >= 1
        &&& self.api_messages@[0].role == WireRole::System
        &&& (self.state is Idle) <==> self.nothing_pending()
        &&& self.pending_response ==> self.pending_tool_execution is None
            && self.pending_tool_calls@.len() == 0 && self.permission_modal is None
        &&& self.pending_tool_execution is Some ==> self.permission_modal is None
        &&& self.permission_modal is Some ==> self.pending_tool_calls@.len() > 0
            && self.permission_modal->0.pending_tool_id@ == self.pending_tool_calls@[0].id@
            && self.permission_modal->0.selected < 4 && self.permission_modal->0.options@.len()
            == 4
        &&& !(self.state is Idle) ==> !self.cancel_flag
        &&& !(self.state is Idle) ==> self.api_messages@.len() >= 2 && self.turn_in_order()
    }

    /// The agent is idle if and only if nothing is pending: no request to the
    /// model, no running tool, no tool call in the queue, no question.
    pub proof fn idle_iff_nothing_pending(&self)
        requires
            self.wf(),
        ensures
            (self.state is Idle) <==> (!self.pending_response && self.pending_tool_execution
                is None && self.pending_tool_calls@.len() == 0 && self.permission_modal is None),
    {
    }

    /// What the head of the queue needs before it may run: the first path
    /// that a call of `bash` asks for and that is not allowed.
    pub open spec fn head_needs(&self, env: &Surroundings) -> Option<(Seq<char>, Seq<char>)> {
        if self.pending_tool_calls@.len() > 0 && self.pending_tool_calls@[0].name@ == "bash"@ {
            let missing = missing_for(
                self.pending_tool_calls@[0].arguments@,
                env,
                strs(self.temp_allowed_paths@),
            );
            if missing.len() > 0 {
                Some(missing[0])
            } else {
                None
            }
        } else {
            None
        }
    }

    /// Whether the state is `Idle`.
    pub fn is_idle(&self) -> (out: bool)
        ensures
            out == (self.state is Idle),
    {
        match self.state {
            AppState::Idle => true,
            _ => false,
        }
    }

    /// Whether a question is shown.
    pub fn has_modal(&self) -> (out: bool)
        ensures
            out == (self.permission_modal is Some),
    {
        self.permission_modal.is_some()
    }

    /// Every path that a shell command may write to: the stored allow-list,
    /// then the paths allowed for this run.
    pub fn get_all_allowed_paths(&self, env: &Surroundings) -> (out: Vec<String>)
        ensures
            strs(out@) == env.sandbox.paths() + strs(self.temp_allowed_paths@),
    {
        let mut out = copy_strings(&env.sandbox.allowed_paths);
        assert(strs(out@).len() == out@.len());
        assert(strs(self.temp_allowed_paths@).take(0) =~= Seq::empty());
        assert(strs(out@) =~= env.sandbox.paths() + strs(self.temp_allowed_paths@).take(0));
        let mut i: usize = 0;
        while i < self.temp_allowed_paths.len()
            invariant
                i <= self.temp_allowed_paths.len(),
                out.len() == env.sandbox.allowed_paths.len() + i,
                strs(out@) == env.sandbox.paths() + strs(self.temp_allowed_paths@).take(i as int),
            decreases self.temp_allowed_paths.len() - i,
        {
            let p = self.temp_allowed_paths[i].clone();
            proof {
                let grown = strs(out@.push(p));
                let want = env.sandbox.paths() + strs(self.temp_allowed_paths@).take(i + 1);
                assert forall|j: int| 0 <= j < grown.len() implies grown[j] == want[j] by {
                    if j < out@.len() {
                        assert(grown[j] == strs(out@)[j]);
                    }
                }
                assert(grown =~= want);
            }
            out.push(p);
            i += 1;
        }
        assert(strs(self.temp_allowed_paths@).take(i as int) =~= strs(self.temp_allowed_paths@));
        out
    }

    /// The paths that a shell command asks for and that neither the stored
    /// allow-list nor the paths allowed for this run cover.
    pub fn get_missing_paths_for_command(&self, command: &str, env: &Surroundings) -> (out: Vec<
        PathRequest,
    >)
        ensures
            request_views(out@) == uncovered(
                required_paths(command@, env.toolchain@),
                env.sandbox.paths() + strs(self.temp_allowed_paths@),
            ),
    {
        let required = detect_required_paths(command, &env.toolchain);
        let allowed = self.get_all_allowed_paths(env);
        missing_among(&required, &allowed)
    }

    /// The question to ask before a call of `bash` may run, if any: for the
    /// first path that the command asks for and that is not allowed.
    pub fn check_bash_permission(&self, args: &str, tool_id: &str, env: &Surroundings) -> (out: Option<
        PermissionModal,
    >)
        ensures
            out is Some <==> missing_for(args@, env, strs(self.temp_allowed_paths@)).len() > 0,
            out is Some ==> {
                let first = missing_for(args@, env, strs(self.temp_allowed_paths@))[0];
                &&& out->0.path@ == first.0
                &&& out->0.reason@ == first.1
                &&& out->0.pending_tool_id@ == tool_id@
                &&& out->0.selected == 0
                &&& out->0.offers_all()
            },
    {
        let command = match text_field(args, "command") {
            Some(c) => c,
            None => "".to_owned(),
        };
        if command.as_str().is_empty() {
            return None;
        }
        let missing = self.get_missing_paths_for_command(command.as_str(), env);
        assert(request_views(missing@).len() == missing@.len());
        if missing.len() > 0 {
            assert(request_views(missing@)[0] == missing@[0]@);
            Some(
                PermissionModal::new(
                    missing[0].path.clone(),
                    missing[0].reason.clone(),
                    tool_id.to_owned(),
                ),
            )
        } else {
            None
        }
    }

    /// Whether everything but the question is that of `other`.
    pub open spec fn unchanged_but_question(&self, other: &App) -> bool {
        &&& self.same_journal(other)
        &&& self.same_settings(other)
        &&& self.same_screen(other)
        &&& self.session == other.session
        &&& self.state == other.state
        &&& self.pending_response == other.pending_response
        &&& self.pending_tool_calls == other.pending_tool_calls
        &&& self.pending_tool_execution == other.pending_tool_execution
        &&& self.cancel_flag == other.cancel_flag
        &&& self.turn_start == other.turn_start
    }

    /// What moving the selection of the question up makes of the application `pre`.
    pub open spec fn moved_up(pre: &App, post: &App) -> bool {
        if pre.permission_modal is None {
            *post == *pre
        } else {
            &&& post.permission_modal is Some
            &&& post.permission_modal->0.selected == if pre.permission_modal->0.selected > 0 {
                (pre.permission_modal->0.selected - 1) as usize
            } else {
                0
            }
            &&& post.permission_modal->0.path == pre.permission_modal->0.path
            &&& post.permission_modal->0.reason == pre.permission_modal->0.reason
            &&& post.permission_modal->0.options == pre.permission_modal->0.options
            &&& post.permission_modal->0.pending_tool_id == pre.permission_modal->0.pending_tool_id
            &&& post.unchanged_but_question(pre)
        }
    }

    /// Moves the selection of the question up.
    pub fn modal_up(&mut self)
        requires
            old(self).wf(),
        ensures
            final(self).wf(),
            App::moved_up(old(self), final(self)),
    {
        match &mut self.permission_modal {
            Some(modal) => {
                if modal.selected > 0 {
                    modal.selected = modal.selected - 1;
                }
            },
            None => {},
        }
    }

    /// What moving the selection of the question down makes of the application `pre`.
    pub open spec fn moved_down(pre: &App, post: &App) -> bool {
        if pre.permission_modal is None {
            *post == *pre
        } else {
            &&& post.permission_modal is Some
            &&& post.permission_modal->0.selected == if pre.permission_modal->0.selected < 3 {
                (pre.permission_modal->0.selected + 1) as usize
            } else {
                pre.permission_modal->0.selected
            }
            &&& post.permission_modal->0.path == pre.permission_modal->0.path
            &&& post.permission_modal->0.reason == pre.permission_modal->0.reason
            &&& post.permission_modal->0.options == pre.permission_modal->0.options
            &&& post.permission_modal->0.pending_tool_id == pre.permission_modal->0.pending_tool_id
            &&& post.unchanged_but_question(pre)
        }
    }

    /// Moves the selection of the question down.
    pub fn modal_down(&mut self)
        requires
            old(self).wf(),
        ensures
            final(self).wf(),
            App::moved_down(old(self), final(self)),
    {
        match &mut self.permission_modal {
            Some(modal) => {
                if modal.selected + 1 < modal.options.len() {
                    modal.selected = modal.selected + 1;
                }
            },
            None => {},
        }
    }

    /// What scrolling up makes of the application `pre`.
    pub open spec fn scrolled_up(pre: &App, post: &App) -> bool {
        &&& post.same_journal(pre)
        &&& post.same_turn(pre)
        &&& post.same_settings(pre)
        &&& post.editor == pre.editor
        &&& post.session == pre.session
        &&& post.should_quit == pre.should_quit
        &&& post.error == pre.error
        &&& post.token_usage == pre.token_usage
        &&& post.scroll_offset == if pre.scroll_offset <= u16::MAX - 3 {
            (pre.scroll_offset + 3) as u16
        } else {
            u16::MAX
        }
    }

    /// Scrolls the transcript up by three lines.
    pub fn scroll_up(&mut self)
        requires
            old(self).wf(),
        ensures
            final(self).wf(),
            App::scrolled_up(old(self), final(self)),
    {
        self.scroll_offset = if self.scroll_offset <= u16::MAX - 3 {
            self.scroll_offset + 3
        } else {
            u16::MAX
        };
    }

    /// What scrolling down makes of the application `pre`.
    pub open spec fn scrolled_down(pre: &App, post: &App) -> bool {
        &&& post.same_journal(pre)
        &&& post.same_turn(pre)
        &&& post.same_settings(pre)
        &&& post.editor == pre.editor
        &&& post.session == pre.session
        &&& post.should_quit == pre.should_quit
        &&& post.error == pre.error
        &&& post.token_usage == pre.token_usage
        &&& post.scroll_offset == if pre.scroll_offset >= 3 {
            (pre.scroll_offset - 3) as u16
        } else {
            0
        }
    }

    /// Scrolls the transcript down by three lines.
    pub fn scroll_down(&mut self)
        requires
            old(self).wf(),
        ensures
            final(self).wf(),
            App::scrolled_down(old(self), final(self)),
    {
        self.scroll_offset = if self.scroll_offset >= 3 {
            self.scroll_offset - 3
        } else {
            0
        };
    }
}

} // verus!
