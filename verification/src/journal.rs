//! The transcript: what the user sees of a conversation, what the model is
//! sent of it, and how file references in the user's input are expanded.

use vstd::prelude::*;
use crate::sandbox::opt_text;

verus! {

/// Who a message of the transcript is from. A tool's message names the tool
/// and, where it worked on one, the file.
#[derive(Debug)]
pub enum MessageRole {
    User,
    Assistant,
    Tool { name: String, path: Option<String> },
}

/// Who a message is from, as its texts.
pub enum RoleView {
    User,
    Assistant,
    Tool { name: Seq<char>, path: Option<Seq<char>> },
}

impl View for MessageRole {
    type V = RoleView;

    open spec fn view(&self) -> RoleView {
        match self {
            MessageRole::User => RoleView::User,
            MessageRole::Assistant => RoleView::Assistant,
            MessageRole::Tool { name, path } => RoleView::Tool { name: name@, path: opt_text(*path) },
        }
    }
}

/// A copy of an optional string.
pub fn copy_opt(o: &Option<String>) -> (out: Option<String>)
    ensures
        opt_text(out) == opt_text(*o),
{
    match o {
        Some(s) => Some(s.clone()),
        None => None,
    }
}

impl Clone for MessageRole {
    fn clone(&self) -> (out: Self)
        ensures
            out@ == self@,
    {
        match self {
            MessageRole::User => MessageRole::User,
            MessageRole::Assistant => MessageRole::Assistant,
            MessageRole::Tool { name, path } => MessageRole::Tool {
                name: name.clone(),
                path: copy_opt(path),
            },
        }
    }
}

/// One entry of the transcript that the user sees.
#[derive(Debug)]
pub struct ChatMessage {
    pub role: MessageRole,
    pub content: String,
}

/// An entry of the transcript as its texts.
pub struct ChatMessageView {
    pub role: RoleView,
    pub content: Seq<char>,
}

impl View for ChatMessage {
    type V = ChatMessageView;

    open spec fn view(&self) -> ChatMessageView {
        ChatMessageView { role: self.role@, content: self.content@ }
    }
}

impl Clone for ChatMessage {
    fn clone(&self) -> (out: Self)
        ensures
            out@ == self@,
    {
        ChatMessage { role: self.role.clone(), content: self.content.clone() }
    }
}

impl ChatMessage {
    /// A message of the user.
    pub fn user(content: &str) -> (out: Self)
        ensures
            out@ == (ChatMessageView { role: RoleView::User, content: content@ }),
    {
        ChatMessage { role: MessageRole::User, content: content.to_owned() }
    }

    /// A message of the assistant.
    pub fn assistant(content: &str) -> (out: Self)
        ensures
            out@ == (ChatMessageView { role: RoleView::Assistant, content: content@ }),
    {
        ChatMessage { role: MessageRole::Assistant, content: content.to_owned() }
    }

    /// The message of a tool.
    pub fn tool(name: &str, path: Option<String>, content: &str) -> (out: Self)
        ensures
            out@ == (ChatMessageView {
                role: RoleView::Tool { name: name@, path: opt_text(path) },
                content: content@,
            }),
    {
        ChatMessage { role: MessageRole::Tool { name: name.to_owned(), path }, content: content.to_owned() }
    }
}

/// The messages that a vector holds.
pub open spec fn chat_views(v: Seq<ChatMessage>) -> Seq<ChatMessageView> {
    Seq::new(v.len(), |i: int| v[i]@)
}

/// Copies a transcript.
pub fn copy_chat(v: &Vec<ChatMessage>) -> (out: Vec<ChatMessage>)
    ensures
        chat_views(out@) == chat_views(v@),
{
    let mut out: Vec<ChatMessage> = Vec::new();
    let mut i: usize = 0;
    while i < v.len()
        invariant
            i <= v.len(),
            out.len() == i,
            forall|j: int| 0 <= j < i ==> out@[j]@ == v@[j]@,
        decreases v.len() - i,
    {
        out.push(v[i].clone());
        i += 1;
    }
    assert(chat_views(out@) =~= chat_views(v@));
    out
}

/// Who a message of the wire log is from.
#[derive(Debug, Clone, Copy, PartialEq, Eq, Structural)]
pub enum WireRole {
    System,
    User,
    Assistant,
    Tool,
}

/// One message as the chat API takes it. The tool calls of an assistant's
/// message are kept as the JSON texts that the model sent.
#[derive(Debug)]
pub struct WireMessage {
    pub role: WireRole,
    pub content: Option<String>,
    pub tool_calls: Option<Vec<String>>,
    pub tool_call_id: Option<String>,
}

/// A message of the wire log as its texts.
pub struct WireMessageView {
    pub role: WireRole,
    pub content: Option<Seq<char>>,
    pub tool_calls: Option<Seq<Seq<char>>>,
    pub tool_call_id: Option<Seq<char>>,
}

/// The texts of an optional list of strings.
pub open spec fn opt_texts(o: Option<Vec<String>>) -> Option<Seq<Seq<char>>> {
    match o {
        Some(v) => Some(crate::lines::strs(v@)),
        None => None,
    }
}

impl View for WireMessage {
    type V = WireMessageView;

    open spec fn view(&self) -> WireMessageView {
        WireMessageView {
            role: self.role,
            content: opt_text(self.content),
            tool_calls: opt_texts(self.tool_calls),
            tool_call_id: opt_text(self.tool_call_id),
        }
    }
}

/// Copies a list of strings.
pub fn copy_strings(v: &Vec<String>) -> (out: Vec<String>)
    ensures
        crate::lines::strs(out@) == crate::lines::strs(v@),
{
    let mut out: Vec<String> = Vec::new();
    let mut i: usize = 0;
    while i < v.len()
        invariant
            i <= v.len(),
            out.len() == i,
            forall|j: int| 0 <= j < i ==> out@[j]@ == v@[j]@,
        decreases v.len() - i,
    {
        out.push(v[i].clone());
        i += 1;
    }
    assert(crate::lines::strs(out@) =~= crate::lines::strs(v@));
    out
}

impl Clone for WireMessage {
    fn clone(&self) -> (out: Self)
        ensures
            out@ == self@,
    {
        WireMessage {
            role: self.role,
            content: copy_opt(&self.content),
            tool_calls: match &self.tool_calls {
                Some(v) => Some(copy_strings(v)),
                None => None,
            },
            tool_call_id: copy_opt(&self.tool_call_id),
        }
    }
}

impl WireMessage {
    /// A message with a role and a content, and nothing else.
    pub open spec fn plain(role: WireRole, content: Seq<char>) -> WireMessageView {
        WireMessageView { role, content: Some(content), tool_calls: None, tool_call_id: None }
    }

    /// The assistant's message that asks for tool calls.
    pub open spec fn calls(raw_calls: Seq<Seq<char>>) -> WireMessageView {
        WireMessageView {
            role: WireRole::Assistant,
            content: None,
            tool_calls: Some(raw_calls),
            tool_call_id: None,
        }
    }

    /// The message that answers the tool call `id`.
    pub open spec fn answer(id: Seq<char>, content: Seq<char>) -> WireMessageView {
        WireMessageView {
            role: WireRole::Tool,
            content: Some(content),
            tool_calls: None,
            tool_call_id: Some(id),
        }
    }

    /// The system prompt.
    pub fn system(content: &str) -> (out: Self)
        ensures
            out@ == Self::plain(WireRole::System, content@),
    {
        WireMessage {
            role: WireRole::System,
            content: Some(content.to_owned()),
            tool_calls: None,
            tool_call_id: None,
        }
    }

    /// A message of the user.
    pub fn user(content: &str) -> (out: Self)
        ensures
            out@ == Self::plain(WireRole::User, content@),
    {
        WireMessage {
            role: WireRole::User,
            content: Some(content.to_owned()),
            tool_calls: None,
            tool_call_id: None,
        }
    }

    /// A message of the assistant that asks for no tool.
    pub fn assistant(content: &str) -> (out: Self)
        ensures
            out@ == Self::plain(WireRole::Assistant, content@),
    {
        WireMessage {
            role: WireRole::Assistant,
            content: Some(content.to_owned()),
            tool_calls: None,
            tool_call_id: None,
        }
    }

    /// The assistant's message that asks for the given tool calls.
    pub fn assistant_calls(raw_calls: Vec<String>) -> (out: Self)
        ensures
            out@ == Self::calls(crate::lines::strs(raw_calls@)),
    {
        WireMessage {
            role: WireRole::Assistant,
            content: None,
            tool_calls: Some(raw_calls),
            tool_call_id: None,
        }
    }

    /// The result of the tool call `id`.
    pub fn tool_result(id: &str, content: &str) -> (out: Self)
        ensures
            out@ == Self::answer(id@, content@),
    {
        WireMessage {
            role: WireRole::Tool,
            content: Some(content.to_owned()),
            tool_calls: None,
            tool_call_id: Some(id.to_owned()),
        }
    }
}

/// The messages that a vector holds.
pub open spec fn wire_views(v: Seq<WireMessage>) -> Seq<WireMessageView> {
    Seq::new(v.len(), |i: int| v[i]@)
}

/// Copies a wire log.
pub fn copy_wire(v: &Vec<WireMessage>) -> (out: Vec<WireMessage>)
    ensures
        wire_views(out@) == wire_views(v@),
{
    let mut out: Vec<WireMessage> = Vec::new();
    let mut i: usize = 0;
    while i < v.len()
        invariant
            i <= v.len(),
            out.len() == i,
            forall|j: int| 0 <= j < i ==> out@[j]@ == v@[j]@,
        decreases v.len() - i,
    {
        out.push(v[i].clone());
        i += 1;
    }
    assert(wire_views(out@) =~= wire_views(v@));
    out
}

} // verus!
