//! The steps of the turn controller.

use vstd::prelude::*;
use crate::app::{
    running_ids, App, AppState, Effect, ModelPoll, RunningTool, Surroundings, ToolPoll,
};
use crate::fileops::prefixed;
use crate::journal::{
    chat_views, copy_chat, copy_wire, wire_views, ChatMessage, ChatMessageView, RoleView,
    WireMessage, WireRole,
};
use crate::json::{json_text, text_field, text_or};
use crate::labels::{format_tool_call, tool_label};
use crate::lines::strs;
use crate::sandbox::opt_text;
use crate::session::{session_title, session_title_of};
use crate::text::{push_str, str_eq, string_of};
use crate::tools::args_of;
use crate::turn::{
    call_arguments, call_id, call_ids, call_name, expected, expected_after_push,
    extract_call, queue_ids, tail_after_push, ToolCall,
};

verus! {

/// Whether the calls are those that the given JSON texts spell.
pub open spec fn calls_of(calls: Seq<ToolCall>, raws: Seq<Seq<char>>) -> bool {
    &&& calls.len() == raws.len()
    &&& forall|i: int|
        0 <= i < calls.len() ==> (#[trigger] calls[i]).id@ == call_id(raws[i]) && calls[i].name@
            == call_name(raws[i]) && calls[i].arguments@ == call_arguments(raws[i])
}

/// The calls that the given JSON texts spell.
pub fn extract_calls(raws: &Vec<String>) -> (out: Vec<ToolCall>)
    ensures
        calls_of(out@, strs(raws@)),
        queue_ids(out@) == call_ids(strs(raws@)),
{
    let mut out: Vec<ToolCall> = Vec::new();
    let mut i: usize = 0;
    while i < raws.len()
        invariant
            i <= raws.len(),
            out@.len() == i,
            forall|j: int|
                0 <= j < i ==> out@[j].id@ == call_id(raws@[j]@) && out@[j].name@ == call_name(
                    raws@[j]@,
                ) && out@[j].arguments@ == call_arguments(raws@[j]@),
        decreases raws.len() - i,
    {
        out.push(extract_call(raws[i].as_str()));
        i += 1;
    }
    assert(queue_ids(out@) =~= call_ids(strs(raws@)));
    out
}

impl App {
    /// Whether the settings are those of `other`.
    pub open spec fn same_settings(&self, other: &App) -> bool {
        &&& self.config == other.config
        &&& self.api_key == other.api_key
        &&& self.provider == other.provider
        &&& self.temp_allowed_paths == other.temp_allowed_paths
    }

    /// Whether what the screen shows besides the transcript is that of
    /// `other`.
    pub open spec fn same_screen(&self, other: &App) -> bool {
        &&& self.editor == other.editor
        &&& self.scroll_offset == other.scroll_offset
        &&& self.should_quit == other.should_quit
        &&& self.error == other.error
        &&& self.token_usage == other.token_usage
    }

    /// Whether the transcript and the wire log are those of `other`.
    pub open spec fn same_journal(&self, other: &App) -> bool {
        &&& self.messages == other.messages
        &&& self.api_messages == other.api_messages
    }

    /// Whether the state of the turn is that of `other`.
    pub open spec fn same_turn(&self, other: &App) -> bool {
        &&& self.state == other.state
        &&& self.pending_response == other.pending_response
        &&& self.pending_tool_calls == other.pending_tool_calls
        &&& self.pending_tool_execution == other.pending_tool_execution
        &&& self.permission_modal == other.permission_modal
        &&& self.cancel_flag == other.cancel_flag
        &&& self.turn_start == other.turn_start
    }

    /// What draining asks of the state: tools are being worked on, no
    /// question is shown, and the wire log of the turn is in order.
    pub open spec fn ready_to_drain(&self) -> bool {
        &&& self.editor.wf()
        &&& self.api_messages@.len() >= 1
        &&& self.api_messages@[0].role == WireRole::System
        &&& !(self.state is Idle)
        &&& !self.pending_response
        &&& self.permission_modal is None
        &&& !self.cancel_flag
        &&& self.api_messages@.len() >= 2
        &&& self.turn_in_order()
    }

    /// The tool that runs once the head of the queue is taken.
    pub open spec fn head_runs_as(&self, running: RunningTool) -> bool {
        &&& running.id@ == self.pending_tool_calls@[0].id@
        &&& running.name@ == self.pending_tool_calls@[0].name@
        &&& opt_text(running.path) == json_text(self.pending_tool_calls@[0].arguments@, "path"@)
    }

    /// What the next step of the work on the tool calls makes of the
    /// application `pre`, and what is to be done then. While a tool runs,
    /// nothing. With the queue empty, the results go back to the model. With
    /// a call of `bash` at the head that asks for a path not allowed, the
    /// question for the first such path is shown, and the call stays in the
    /// queue. Else the head leaves the queue and runs.
    pub open spec fn drained(pre: &App, post: &App, env: &Surroundings, out: Effect) -> bool {
        &&& post.same_journal(pre)
        &&& post.same_settings(pre)
        &&& post.same_screen(pre)
        &&& post.session == pre.session
        &&& pre.pending_tool_execution is Some ==> out is Nothing && post.same_turn(pre)
        &&& pre.pending_tool_execution is None && pre.pending_tool_calls@.len() == 0 ==> {
            &&& out is CallModel
            &&& post.state is Thinking
            &&& post.pending_response
            &&& !post.cancel_flag
            &&& post.pending_tool_calls@.len() == 0
            &&& post.pending_tool_execution is None
            &&& post.permission_modal is None
            &&& post.turn_start == pre.turn_start
            &&& post.settled()
        }
        &&& pre.pending_tool_execution is None && pre.head_needs(env) is Some ==> {
            let need = pre.head_needs(env)->0;
            &&& out is Nothing
            &&& post.state == pre.state
            &&& !post.pending_response
            &&& !post.cancel_flag
            &&& post.pending_tool_calls == pre.pending_tool_calls
            &&& post.pending_tool_execution is None
            &&& post.permission_modal is Some
            &&& post.permission_modal->0.path@ == need.0
            &&& post.permission_modal->0.reason@ == need.1
            &&& post.permission_modal->0.pending_tool_id@ == pre.pending_tool_calls@[0].id@
            &&& post.permission_modal->0.selected == 0
            &&& post.permission_modal->0.offers_all()
            &&& post.turn_start == pre.turn_start
        }
        &&& pre.pending_tool_execution is None && pre.pending_tool_calls@.len() > 0
            && pre.head_needs(env) is None ==> {
            &&& out is RunTool
            &&& out->call == pre.pending_tool_calls@[0]
            &&& strs(out->allowed_paths@) == env.sandbox.paths() + strs(pre.temp_allowed_paths@)
            &&& post.pending_tool_calls@ == pre.pending_tool_calls@.drop_first()
            &&& post.pending_tool_execution is Some
            &&& pre.head_runs_as(post.pending_tool_execution->0)
            &&& post.state is ToolCall
            &&& post.state->ToolCall_0@ == tool_label(
                pre.pending_tool_calls@[0].name@,
                args_of(pre.pending_tool_calls@[0].arguments@),
            )
            &&& !post.pending_response
            &&& !post.cancel_flag
            &&& post.permission_modal is None
            &&& post.turn_start == pre.turn_start
        }
    }

    /// Marks a request to the model as in flight and as not abandoned.
    pub(crate) fn start_api_call(&mut self)
        ensures
            final(self).pending_response,
            !final(self).cancel_flag,
            *final(self) == (App { pending_response: true, cancel_flag: false, ..*old(self) }),
    {
        self.cancel_flag = false;
        self.pending_response = true;
    }

    fn process_pending_tools(&mut self, env: &Surroundings) -> (out: Effect)
        requires
            old(self).ready_to_drain(),
        ensures
            final(self).wf(),
            !(final(self).state is Idle),
            out is CallModel ==> final(self).settled(),
            App::drained(old(self), final(self), env, out),
    {
        if self.pending_tool_execution.is_some() {
            return Effect::Nothing;
        }
        if self.pending_tool_calls.len() == 0 {
            proof {
                assert(self.due() =~= Seq::<Seq<char>>::empty());
            }
            self.state = AppState::Thinking;
            self.start_api_call();
            return Effect::CallModel;
        }
        if str_eq(self.pending_tool_calls[0].name.as_str(), "bash") {
            let modal = self.check_bash_permission(
                self.pending_tool_calls[0].arguments.as_str(),
                self.pending_tool_calls[0].id.as_str(),
                env,
            );
            match modal {
                Some(m) => {
                    self.permission_modal = Some(m);
                    return Effect::Nothing;
                },
                None => {},
            }
        }
        let ghost before = self.pending_tool_calls@;
        let call = self.pending_tool_calls.remove(0);
        let label = format_tool_call(call.name.as_str(), call.arguments.as_str());
        let path = text_field(call.arguments.as_str(), "path");
        let allowed = self.get_all_allowed_paths(env);
        self.state = AppState::ToolCall(label);
        self.pending_tool_execution = Some(
            RunningTool { id: call.id.clone(), name: call.name.clone(), path },
        );
        proof {
            assert(self.pending_tool_calls@ =~= before.drop_first());
            assert(self.due() =~= running_ids(None) + queue_ids(before));
        }
        Effect::RunTool { call, allowed_paths: allowed }
    }

    /// Whether the turn is settled: its wire log is in order, and every call
    /// that the assistant asked for in it is answered.
    pub open spec fn settled(&self) -> bool {
        &&& self.turn_start <= self.api_messages@.len()
        &&& expected(self.turn_log()) == Some(Seq::<Seq<char>>::empty())
    }

    /// Whether `out` asks for this conversation to be saved as it stands at
    /// the time `now`: nothing for a conversation without messages; else the
    /// session with the transcript and the wire log in it, and with its title
    /// taken from the first message of the user where it has none yet.
    pub open spec fn saves(&self, now: i64, out: Effect) -> bool {
        if self.messages@.len() == 0 {
            out is Nothing
        } else {
            &&& out is SaveSession
            &&& out->SaveSession_0.id@ == self.session.id@
            &&& out->SaveSession_0.created_at == self.session.created_at
            &&& out->SaveSession_0.updated_at == now
            &&& chat_views(out->SaveSession_0.messages@) == self.chat()
            &&& wire_views(out->SaveSession_0.api_messages@) == self.wire()
            &&& out->SaveSession_0.title@ == if self.session.title@.len() == 0 {
                session_title_of(self.chat())
            } else {
                self.session.title@
            }
        }
    }

    /// What saving makes of the application `pre`: nothing for a
    /// conversation without messages; else the session holds what is saved.
    pub open spec fn saved(pre: &App, post: &App, now: i64, out: Effect) -> bool {
        &&& post.same_journal(pre)
        &&& post.same_settings(pre)
        &&& post.same_screen(pre)
        &&& post.same_turn(pre)
        &&& pre.saves(now, out)
        &&& pre.messages@.len() == 0 ==> post.session == pre.session
        &&& pre.messages@.len() > 0 ==> out->SaveSession_0.same_as(&post.session)
            && post.session.id == pre.session.id && post.session.created_at
            == pre.session.created_at
    }

    /// Stores the conversation in the session, with its title taken from the
    /// first message of the user where it has none yet, and asks for the
    /// session to be saved. A conversation without messages is not saved.
    pub fn save_session(&mut self, now: i64) -> (out: Effect)
        requires
            old(self).wf(),
        ensures
            final(self).wf(),
            App::saved(old(self), final(self), now, out),
    {
        if self.messages.len() == 0 {
            return Effect::Nothing;
        }
        self.session.updated_at = now;
        self.session.messages = copy_chat(&self.messages);
        self.session.api_messages = copy_wire(&self.api_messages);
        if self.session.title.as_str().is_empty() {
            self.session.title = session_title(&self.messages);
        }
        Effect::SaveSession(self.session.clone())
    }

    /// What abandoning the work in flight makes of the application `pre`:
    /// nothing is pending any more, the agent is idle, and the transcript
    /// says that the request was aborted. An idle agent is left as it is.
    pub open spec fn aborted(pre: &App, post: &App) -> bool {
        if pre.state is Idle {
            *post == *pre
        } else {
            &&& post.state is Idle
            &&& post.cancel_flag
            &&& post.nothing_pending()
            &&& post.chat() == pre.chat().push(
                ChatMessageView { role: RoleView::Assistant, content: "*Request aborted*"@ },
            )
            &&& post.api_messages == pre.api_messages
            &&& post.same_settings(pre)
            &&& post.same_screen(pre)
            &&& post.session == pre.session
            &&& post.turn_start == pre.turn_start
        }
    }

    /// Abandons the work in flight.
    pub fn abort_request(&mut self)
        requires
            old(self).wf(),
        ensures
            final(self).wf(),
            App::aborted(old(self), final(self)),
    {
        if self.is_idle() {
            return;
        }
        self.cancel_flag = true;
        self.pending_response = false;
        self.pending_tool_calls = Vec::new();
        self.pending_tool_execution = None;
        self.permission_modal = None;
        self.state = AppState::Idle;
        let m = ChatMessage::assistant("*Request aborted*");
        assert(chat_views(self.messages@.push(m)) =~= chat_views(self.messages@).push(m@));
        self.messages.push(m);
    }

    /// Whether `mid` is `pre` with the tool calls of the model taken in: the
    /// assistant's message that asks for them stands at the end of the wire
    /// log, as it came, and the calls wait in the queue.
    pub open spec fn calls_taken(pre: &App, mid: &App, raws: Seq<Seq<char>>) -> bool {
        &&& mid.wire() == pre.wire().push(WireMessage::calls(raws))
        &&& mid.messages == pre.messages
        &&& calls_of(mid.pending_tool_calls@, raws)
        &&& mid.pending_tool_execution is None
        &&& mid.permission_modal is None
        &&& !mid.pending_response
        &&& mid.state == pre.state
        &&& mid.cancel_flag == pre.cancel_flag
        &&& mid.turn_start == pre.turn_start
        &&& mid.same_settings(pre)
        &&& mid.session == pre.session
        &&& mid.editor == pre.editor
        &&& mid.scroll_offset == pre.scroll_offset
        &&& mid.should_quit == pre.should_quit
        &&& mid.error == pre.error
    }

    /// What taking the news of the request to the model makes of the
    /// application `pre`, and what is to be done then. An answer without tool
    /// calls ends the turn: it goes to the transcript and to the wire log,
    /// and the session is saved. An answer with tool calls goes to the wire
    /// log as it came, and the first call is taken up. An error is shown, the
    /// wire log of the turn is taken back, from the message of the user that
    /// began it on, and the turn ends. Without a request in flight, nothing
    /// happens.
    pub open spec fn model_polled(
        pre: &App,
        post: &App,
        poll: ModelPoll,
        env: &Surroundings,
        out: Effect,
    ) -> bool {
        if pre.state is Idle || !pre.pending_response {
            out is Nothing && *post == *pre
        } else {
            match poll {
                ModelPoll::Waiting => out is Nothing && *post == *pre,
                ModelPoll::Disconnected => {
                    &&& out is Nothing
                    &&& post.state is Idle
                    &&& post.error is Some
                    &&& post.error->0@ == "API thread crashed"@
                    &&& post.turn_start == pre.turn_start
                    &&& post.same_journal(pre)
                    &&& post.same_settings(pre)
                    &&& post.session == pre.session
                    &&& post.token_usage == pre.token_usage
                    &&& post.editor == pre.editor
                },
                ModelPoll::Reply(Err(e)) => {
                    &&& out is Nothing
                    &&& post.state is Idle
                    &&& post.error is Some
                    &&& post.error->0@ == "API error: "@ + e@
                    &&& post.messages == pre.messages
                    &&& post.wire() == pre.wire().take(pre.turn_start as int)
                    &&& post.turn_start == pre.turn_start
                    &&& post.same_settings(pre)
                    &&& post.session == pre.session
                    &&& post.token_usage == pre.token_usage
                    &&& post.editor == pre.editor
                },
                ModelPoll::Reply(Ok(resp)) => {
                    &&& post.token_usage == match resp.usage {
                        Some(u) => Some((u.prompt_tokens, u.completion_tokens)),
                        None => pre.token_usage,
                    }
                    &&& post.same_settings(pre)
                    &&& post.editor == pre.editor
                    &&& post.error == pre.error
                    &&& match resp.tool_calls {
                        None => {
                            let content = text_or(opt_text(resp.content), Seq::empty());
                            &&& post.state is Idle
                            &&& post.chat() == pre.chat().push(
                                ChatMessageView { role: RoleView::Assistant, content },
                            )
                            &&& post.wire() == pre.wire().push(
                                WireMessage::plain(WireRole::Assistant, content),
                            )
                            &&& post.turn_start == pre.turn_start
                            &&& post.settled()
                            &&& out is SaveSession
                            &&& out->SaveSession_0.same_as(&post.session)
                            &&& post.session.id == pre.session.id
                            &&& post.session.updated_at == env.now
                            &&& chat_views(post.session.messages@) == post.chat()
                            &&& wire_views(post.session.api_messages@) == post.wire()
                            &&& post.session.title@ == if pre.session.title@.len() == 0 {
                                session_title_of(post.chat())
                            } else {
                                pre.session.title@
                            }
                        },
                        Some(raws) => {
                            &&& !(post.state is Idle)
                            &&& post.session == pre.session
                            &&& exists|mid: App| #[trigger]
                                App::calls_taken(pre, &mid, strs(raws@)) && App::drained(
                                    &mid,
                                    post,
                                    env,
                                    out,
                                )
                        },
                    }
                },
            }
        }
    }

    /// Takes what is known of the request to the model.
    pub fn poll_api_response(&mut self, poll: ModelPoll, env: &Surroundings) -> (out: Effect)
        requires
            old(self).wf(),
        ensures
            final(self).wf(),
            App::model_polled(old(self), final(self), poll, env, out),
            out is CallModel ==> final(self).settled(),
    {
        if self.is_idle() || self.cancel_flag || !self.pending_response {
            return Effect::Nothing;
        }
        match poll {
            ModelPoll::Waiting => Effect::Nothing,
            ModelPoll::Disconnected => {
                self.error = Some("API thread crashed".to_owned());
                self.state = AppState::Idle;
                self.pending_response = false;
                Effect::Nothing
            },
            ModelPoll::Reply(Err(e)) => {
                self.pending_response = false;
                self.error = Some(prefixed("API error: ", e.as_str()));
                let ghost before = self.wire();
                self.api_messages.truncate(self.turn_start);
                assert(self.wire() =~= before.take(self.turn_start as int));
                self.state = AppState::Idle;
                Effect::Nothing
            },
            ModelPoll::Reply(Ok(resp)) => {
                self.pending_response = false;
                match resp.usage {
                    Some(u) => {
                        self.token_usage = Some((u.prompt_tokens, u.completion_tokens));
                    },
                    None => {},
                }
                match resp.tool_calls {
                    Some(raws) => {
                        let ghost before = *self;
                        let ghost texts = strs(raws@);
                        let out = self.handle_tool_calls(raws, env);
                        proof {
                            let mid = choose|mid: App| #[trigger]
                                App::calls_taken(&before, &mid, texts) && App::drained(
                                    &mid,
                                    self,
                                    env,
                                    out,
                                );
                            assert(App::calls_taken(old(self), &mid, texts));
                        }
                        out
                    },
                    None => {
                        let content = match resp.content {
                            Some(c) => c,
                            None => String::new(),
                        };
                        let m = ChatMessage::assistant(content.as_str());
                        let w = WireMessage::assistant(content.as_str());
                        proof {
                            assert(chat_views(self.messages@.push(m)) =~= self.chat().push(m@));
                            assert(wire_views(self.api_messages@.push(w)) =~= self.wire().push(w@));
                            assert(self.due() =~= Seq::<Seq<char>>::empty());
                            tail_after_push(self.wire(), self.turn_start as int, w@);
                            expected_after_push(self.turn_log(), w@);
                        }
                        self.messages.push(m);
                        self.api_messages.push(w);
                        self.state = AppState::Idle;
                        self.save_session(env.now)
                    },
                }
            },
        }
    }

    fn handle_tool_calls(&mut self, tool_calls: Vec<String>, env: &Surroundings) -> (out: Effect)
        requires
            old(self).editor.wf(),
            old(self).api_messages@.len() >= 2,
            old(self).api_messages@[0].role == WireRole::System,
            !(old(self).state is Idle),
            !old(self).pending_response,
            old(self).permission_modal is None,
            old(self).pending_tool_execution is None,
            old(self).pending_tool_calls@.len() == 0,
            !old(self).cancel_flag,
            old(self).turn_in_order(),
        ensures
            final(self).wf(),
            !(final(self).state is Idle),
            final(self).same_settings(old(self)),
            final(self).same_screen(old(self)),
            final(self).session == old(self).session,
            out is CallModel ==> final(self).settled(),
            exists|mid: App| #[trigger]
                App::calls_taken(old(self), &mid, strs(tool_calls@)) && App::drained(
                    &mid,
                    final(self),
                    env,
                    out,
                ),
    {
        let calls = extract_calls(&tool_calls);
        let ghost texts = strs(tool_calls@);
        let m = WireMessage::assistant_calls(tool_calls);
        proof {
            assert(wire_views(self.api_messages@.push(m)) =~= self.wire().push(m@));
            assert(self.due() =~= Seq::<Seq<char>>::empty());
            tail_after_push(self.wire(), self.turn_start as int, m@);
            expected_after_push(self.turn_log(), m@);
        }
        self.api_messages.push(m);
        self.pending_tool_calls = calls;
        proof {
            assert(self.due() =~= call_ids(texts));
        }
        let ghost mid = *self;
        let out = self.process_pending_tools(env);
        assert(App::calls_taken(old(self), &mid, texts));
        out
    }

    /// Whether `mid` is `pre` with the result of the running tool taken in:
    /// it stands at the end of the transcript and, under the id of its call,
    /// at the end of the wire log, and no tool runs.
    pub open spec fn result_taken(pre: &App, mid: &App, result: Seq<char>) -> bool {
        let tool = pre.pending_tool_execution->0;
        &&& mid.chat() == pre.chat().push(
            ChatMessageView {
                role: RoleView::Tool { name: tool.name@, path: opt_text(tool.path) },
                content: result,
            },
        )
        &&& mid.wire() == pre.wire().push(WireMessage::answer(tool.id@, result))
        &&& mid.pending_tool_execution is None
        &&& mid.pending_tool_calls == pre.pending_tool_calls
        &&& mid.permission_modal == pre.permission_modal
        &&& mid.pending_response == pre.pending_response
        &&& mid.state == pre.state
        &&& mid.cancel_flag == pre.cancel_flag
        &&& mid.turn_start == pre.turn_start
        &&& mid.same_settings(pre)
        &&& mid.same_screen(pre)
        &&& mid.session == pre.session
    }

    /// What taking the news of the running tool makes of the application
    /// `pre`, and what is to be done then. A result goes to the transcript
    /// and, under the id of its call, to the wire log; then the next call is
    /// taken up, or the results go back to the model. A worker that is gone
    /// ends the turn with an error. Without a running tool, nothing happens.
    pub open spec fn tool_polled(
        pre: &App,
        post: &App,
        poll: ToolPoll,
        env: &Surroundings,
        out: Effect,
    ) -> bool {
        if pre.pending_tool_execution is None {
            out is Nothing && *post == *pre
        } else {
            match poll {
                ToolPoll::Waiting => out is Nothing && *post == *pre,
                ToolPoll::Disconnected => {
                    &&& out is Nothing
                    &&& post.state is Idle
                    &&& post.error is Some
                    &&& post.error->0@ == "Tool execution thread crashed"@
                    &&& post.turn_start == pre.turn_start
                    &&& post.same_journal(pre)
                    &&& post.same_settings(pre)
                    &&& post.session == pre.session
                    &&& post.token_usage == pre.token_usage
                    &&& post.editor == pre.editor
                },
                ToolPoll::Finished(result) => {
                    &&& !(post.state is Idle)
                    &&& exists|mid: App| #[trigger]
                        App::result_taken(pre, &mid, result@) && App::drained(&mid, post, env, out)
                },
            }
        }
    }

    /// Takes what is known of the running tool.
    pub fn poll_tool_result(&mut self, poll: ToolPoll, env: &Surroundings) -> (out: Effect)
        requires
            old(self).wf(),
        ensures
            final(self).wf(),
            App::tool_polled(old(self), final(self), poll, env, out),
            out is CallModel ==> final(self).settled(),
    {
        if self.pending_tool_execution.is_none() {
            return Effect::Nothing;
        }
        match poll {
            ToolPoll::Waiting => Effect::Nothing,
            ToolPoll::Disconnected => {
                self.pending_tool_execution = None;
                self.pending_tool_calls = Vec::new();
                self.error = Some("Tool execution thread crashed".to_owned());
                self.state = AppState::Idle;
                Effect::Nothing
            },
            ToolPoll::Finished(result) => {
                let tool = match self.pending_tool_execution.take() {
                    Some(t) => t,
                    None => {
                        return Effect::Nothing;
                    },
                };
                let w = WireMessage::tool_result(tool.id.as_str(), result.as_str());
                let m = ChatMessage::tool(tool.name.as_str(), tool.path, result.as_str());
                proof {
                    assert(chat_views(self.messages@.push(m)) =~= self.chat().push(m@));
                    assert(wire_views(self.api_messages@.push(w)) =~= self.wire().push(w@));
                    let due = seq![tool.id@] + queue_ids(self.pending_tool_calls@);
                    assert(expected(old(self).turn_log()) == Some(due));
                    assert(due.drop_first() =~= queue_ids(self.pending_tool_calls@));
                    assert(self.wire() == old(self).wire());
                    tail_after_push(self.wire(), self.turn_start as int, w@);
                    expected_after_push(old(self).turn_log(), w@);
                }
                self.messages.push(m);
                self.api_messages.push(w);
                let ghost mid = *self;
                let out = self.process_pending_tools(env);
                assert(App::result_taken(old(self), &mid, result@));
                out
            },
        }
    }

    /// What a denied call is answered with.
    pub open spec fn denial(path: Seq<char>) -> Seq<char> {
        "Permission denied: access to "@ + path + " was not granted"@
    }

    /// Whether `mid` is `pre` with the path of the question allowed for this
    /// run, and the question gone.
    pub open spec fn allowed_once(pre: &App, mid: &App) -> bool {
        &&& strs(mid.temp_allowed_paths@) == strs(pre.temp_allowed_paths@).push(
            pre.permission_modal->0.path@,
        )
        &&& mid.permission_modal is None
        &&& mid.config == pre.config
        &&& mid.api_key == pre.api_key
        &&& mid.provider == pre.provider
        &&& mid.same_journal(pre)
        &&& mid.same_screen(pre)
        &&& mid.session == pre.session
        &&& mid.state == pre.state
        &&& mid.pending_response == pre.pending_response
        &&& mid.pending_tool_calls == pre.pending_tool_calls
        &&& mid.pending_tool_execution == pre.pending_tool_execution
        &&& mid.cancel_flag == pre.cancel_flag
        &&& mid.turn_start == pre.turn_start
    }

    /// Whether `mid` is `pre` with the call that waits for the question
    /// denied: the refusal stands at the end of the transcript and, under the
    /// id of the call, at the end of the wire log; the call has left the
    /// queue, and the question is gone.
    pub open spec fn denied(pre: &App, mid: &App) -> bool {
        let modal = pre.permission_modal->0;
        &&& mid.chat() == pre.chat().push(
            ChatMessageView {
                role: RoleView::Tool { name: "bash"@, path: None },
                content: Self::denial(modal.path@),
            },
        )
        &&& mid.wire() == pre.wire().push(
            WireMessage::answer(modal.pending_tool_id@, Self::denial(modal.path@)),
        )
        &&& mid.pending_tool_calls@ == pre.pending_tool_calls@.drop_first()
        &&& mid.permission_modal is None
        &&& mid.pending_tool_execution == pre.pending_tool_execution
        &&& mid.pending_response == pre.pending_response
        &&& mid.state == pre.state
        &&& mid.cancel_flag == pre.cancel_flag
        &&& mid.turn_start == pre.turn_start
        &&& mid.same_settings(pre)
        &&& mid.same_screen(pre)
        &&& mid.session == pre.session
    }

    /// Whether `post` is `pre` without the question.
    pub open spec fn question_gone(pre: &App, post: &App) -> bool {
        &&& post.permission_modal is None
        &&& post.same_journal(pre)
        &&& post.same_settings(pre)
        &&& post.same_screen(pre)
        &&& post.session == pre.session
        &&& post.state == pre.state
        &&& post.pending_response == pre.pending_response
        &&& post.pending_tool_calls == pre.pending_tool_calls
        &&& post.pending_tool_execution == pre.pending_tool_execution
        &&& post.cancel_flag == pre.cancel_flag
        &&& post.turn_start == pre.turn_start
    }

    /// What giving the answer number `selected` to the question makes of the
    /// application `pre`, and what is to be done then. Allowing for the
    /// project or globally asks for the path to be stored; allowing once adds
    /// the path to those of this run and takes the call up again; denying
    /// answers the call with a refusal and goes on with the next call.
    pub open spec fn answered_with(
        pre: &App,
        post: &App,
        selected: usize,
        env: &Surroundings,
        out: Effect,
    ) -> bool {
        if pre.permission_modal is None {
            out is Nothing && *post == *pre
        } else if selected == 0 {
            out is GrantProject && out->GrantProject_0 == pre.permission_modal->0.path
                && Self::question_gone(pre, post)
        } else if selected == 1 {
            out is GrantGlobal && out->GrantGlobal_0 == pre.permission_modal->0.path
                && Self::question_gone(pre, post)
        } else if selected == 2 {
            exists|mid: App| #[trigger]
                App::allowed_once(pre, &mid) && App::drained(&mid, post, env, out)
        } else if selected == 3 {
            exists|mid: App| #[trigger] App::denied(pre, &mid) && App::drained(&mid, post, env, out)
        } else {
            out is Nothing && Self::question_gone(pre, post)
        }
    }

    /// What answering the question with the selected answer makes of the
    /// application `pre`, and what is to be done then.
    pub open spec fn answered(pre: &App, post: &App, env: &Surroundings, out: Effect) -> bool {
        Self::answered_with(
            pre,
            post,
            if pre.permission_modal is Some {
                pre.permission_modal->0.selected
            } else {
                0
            },
            env,
            out,
        )
    }

    fn answer_modal(&mut self, selected: usize, env: &Surroundings) -> (out: Effect)
        requires
            old(self).wf(),
        ensures
            final(self).wf(),
            App::answered_with(old(self), final(self), selected, env, out),
            old(self).permission_modal is Some ==> !(final(self).state is Idle),
            out is CallModel ==> final(self).settled(),
    {
        let modal = match self.permission_modal.take() {
            Some(m) => m,
            None => {
                return Effect::Nothing;
            },
        };
        if selected == 0 {
            Effect::GrantProject(modal.path)
        } else if selected == 1 {
            Effect::GrantGlobal(modal.path)
        } else if selected == 2 {
            let p = modal.path.clone();
            assert(strs(self.temp_allowed_paths@.push(p)) =~= strs(self.temp_allowed_paths@).push(
                p@,
            ));
            self.temp_allowed_paths.push(p);
            let ghost mid = *self;
            let out = self.process_pending_tools(env);
            assert(App::allowed_once(old(self), &mid));
            out
        } else if selected == 3 {
            let mut text: Vec<char> = Vec::new();
            push_str(&mut text, "Permission denied: access to ");
            push_str(&mut text, modal.path.as_str());
            push_str(&mut text, " was not granted");
            assert(text@ =~= Self::denial(modal.path@));
            let result = string_of(&text);
            let m = ChatMessage::tool("bash", None, result.as_str());
            let w = WireMessage::tool_result(modal.pending_tool_id.as_str(), result.as_str());
            let ghost before = self.pending_tool_calls@;
            proof {
                assert(chat_views(self.messages@.push(m)) =~= self.chat().push(m@));
                assert(wire_views(self.api_messages@.push(w)) =~= self.wire().push(w@));
                assert(old(self).due() =~= queue_ids(before));
                assert(queue_ids(before)[0] == modal.pending_tool_id@);
                assert(queue_ids(before).drop_first() =~= queue_ids(before.drop_first()));
                tail_after_push(self.wire(), self.turn_start as int, w@);
                expected_after_push(self.turn_log(), w@);
            }
            self.messages.push(m);
            self.api_messages.push(w);
            self.pending_tool_calls.remove(0);
            proof {
                assert(self.pending_tool_calls@ =~= before.drop_first());
                assert(self.due() =~= queue_ids(before.drop_first()));
            }
            let ghost mid = *self;
            let out = self.process_pending_tools(env);
            assert(App::denied(old(self), &mid));
            out
        } else {
            Effect::Nothing
        }
    }

    /// Answers the question that is shown with the selected answer. Without
    /// a question, nothing happens.
    pub fn modal_select(&mut self, env: &Surroundings) -> (out: Effect)
        requires
            old(self).wf(),
        ensures
            final(self).wf(),
            App::answered(old(self), final(self), env, out),
            old(self).permission_modal is Some ==> !(final(self).state is Idle),
            out is CallModel ==> final(self).settled(),
    {
        let selected = match &self.permission_modal {
            Some(modal) => modal.selected,
            None => 0,
        };
        self.answer_modal(selected, env)
    }

    /// What dismissing the question makes of the application `pre`, and what
    /// is to be done then: what denying makes of it.
    pub open spec fn refused(pre: &App, post: &App, env: &Surroundings, out: Effect) -> bool {
        Self::answered_with(pre, post, 3, env, out)
    }

    /// Dismisses the question: the call is denied.
    pub fn modal_cancel(&mut self, env: &Surroundings) -> (out: Effect)
        requires
            old(self).wf(),
        ensures
            final(self).wf(),
            App::refused(old(self), final(self), env, out),
            old(self).permission_modal is Some ==> !(final(self).state is Idle),
            out is CallModel ==> final(self).settled(),
    {
        self.answer_modal(3, env)
    }

    /// Whether `mid` is `pre` with what came of storing a path taken in: a
    /// failure is shown as the error.
    pub open spec fn storing_noted(pre: &App, mid: &App, stored: Result<(), String>) -> bool {
        &&& match stored {
            Ok(_) => mid.error == pre.error,
            Err(e) => mid.error is Some && mid.error->0@ == "Failed to save: "@ + e@,
        }
        &&& mid.same_journal(pre)
        &&& mid.same_settings(pre)
        &&& mid.same_turn(pre)
        &&& mid.session == pre.session
        &&& mid.editor == pre.editor
        &&& mid.scroll_offset == pre.scroll_offset
        &&& mid.should_quit == pre.should_quit
        &&& mid.token_usage == pre.token_usage
    }

    /// What taking the news of a stored path makes of the application `pre`,
    /// and what is to be done then. A failure is shown; the path then still
    /// counts as not allowed. While tools are worked on and no question is
    /// shown, the call that waited is taken up again.
    pub open spec fn stored_taken(
        pre: &App,
        post: &App,
        stored: Result<(), String>,
        env: &Surroundings,
        out: Effect,
    ) -> bool {
        if pre.state is Idle || pre.pending_response || pre.permission_modal is Some {
            out is Nothing && App::storing_noted(pre, post, stored)
        } else {
            exists|mid: App| #[trigger]
                App::storing_noted(pre, &mid, stored) && App::drained(&mid, post, env, out)
        }
    }

    /// Takes what came of storing an allowed path, and takes the call that
    /// waited for it up again.
    pub fn permission_stored(&mut self, stored: Result<(), String>, env: &Surroundings) -> (out:
        Effect)
        requires
            old(self).wf(),
        ensures
            final(self).wf(),
            App::stored_taken(old(self), final(self), stored, env, out),
            out is CallModel ==> final(self).settled(),
    {
        match &stored {
            Ok(_) => {},
            Err(e) => {
                self.error = Some(prefixed("Failed to save: ", e.as_str()));
            },
        }
        if self.is_idle() || self.pending_response || self.permission_modal.is_some() {
            return Effect::Nothing;
        }
        let ghost mid = *self;
        let out = self.process_pending_tools(env);
        assert(App::storing_noted(old(self), &mid, stored));
        out
    }
}

} // verus!
