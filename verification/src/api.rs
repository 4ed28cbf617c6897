//! The chat API: where a request goes, and what a reply of the server means.

use vstd::prelude::*;
use crate::journal::opt_texts;
use crate::json::{json_nested_text, nested_text_field};
use crate::lines::{decimal, push_decimal};
use crate::sandbox::opt_text;
use crate::text::{chars_of, push_str, slice_of, string_of};

verus! {

/// The tokens that a request took.
#[derive(Debug, Clone, Copy, PartialEq, Eq, Structural)]
pub struct Usage {
    pub prompt_tokens: u32,
    pub completion_tokens: u32,
    pub total_tokens: u32,
}

/// What the model answered: a text, or calls of tools, each kept as the JSON
/// text that the model sent.
#[derive(Debug)]
pub struct ApiResponse {
    pub content: Option<String>,
    pub tool_calls: Option<Vec<String>>,
    pub usage: Option<Usage>,
}

/// An answer of the model as its texts.
pub struct ApiResponseView {
    pub content: Option<Seq<char>>,
    pub tool_calls: Option<Seq<Seq<char>>>,
    pub usage: Option<Usage>,
}

impl View for ApiResponse {
    type V = ApiResponseView;

    open spec fn view(&self) -> ApiResponseView {
        ApiResponseView {
            content: opt_text(self.content),
            tool_calls: opt_texts(self.tool_calls),
            usage: self.usage,
        }
    }
}

/// What came of the request to the server.
#[derive(Debug)]
pub enum HttpReply {
    /// The request could not be made.
    Failed(String),
    /// The server answered with a status of 400 or more.
    Refused { status: u16, body: String },
    /// The answer could not be read as a reply of the chat API.
    Unreadable(String),
    /// The answer, with the first of its choices if it holds any.
    Answered { first_choice: Option<ApiResponse> },
}

/// `s` without the slashes at its end.
pub open spec fn without_trailing_slashes(s: Seq<char>) -> Seq<char>
    decreases s.len(),
{
    if s.len() > 0 && s.last() == '/' {
        without_trailing_slashes(s.drop_last())
    } else {
        s
    }
}

/// Where chat requests go.
pub open spec fn chat_url_of(base_url: Seq<char>) -> Seq<char> {
    without_trailing_slashes(base_url) + "/chat/completions"@
}

/// Where chat requests go: the base URL without the slashes at its end, then
/// `/chat/completions`.
pub fn chat_url(base_url: &str) -> (out: String)
    ensures
        out@ == chat_url_of(base_url@),
{
    let b = chars_of(base_url);
    let mut n: usize = b.len();
    assert(b@.take(n as int) =~= b@);
    while n > 0 && b[n - 1] == '/'
        invariant
            n <= b.len(),
            without_trailing_slashes(b@) == without_trailing_slashes(b@.take(n as int)),
        decreases n,
    {
        proof {
            assert(b@.take(n as int).drop_last() =~= b@.take(n - 1));
        }
        n -= 1;
    }
    let mut out = slice_of(&b, 0, n);
    assert(out@ =~= b@.take(n as int));
    push_str(&mut out, "/chat/completions");
    string_of(&out)
}

/// The value of the header that authorizes a request.
pub fn bearer(api_key: &str) -> (out: String)
    ensures
        out@ == "Bearer "@ + api_key@,
{
    crate::fileops::prefixed("Bearer ", api_key)
}

/// What a refusal of the server is reported as: the status, then the message
/// of the error where the body names one, else the body.
pub open spec fn refusal_text(status: u16, body: Seq<char>, message: Option<Seq<char>>) -> Seq<char> {
    decimal(status as nat) + ": "@ + match message {
        Some(m) => m,
        None => body,
    }
}

/// Reports a refusal of the server.
pub fn report_refusal(status: u16, body: &str, message: &Option<String>) -> (out: String)
    ensures
        out@ == refusal_text(status, body@, opt_text(*message)),
{
    let mut out: Vec<char> = Vec::new();
    push_decimal(&mut out, status as u128);
    push_str(&mut out, ": ");
    match message {
        Some(m) => push_str(&mut out, m.as_str()),
        None => push_str(&mut out, body),
    }
    assert(out@ =~= refusal_text(status, body@, opt_text(*message)));
    string_of(&out)
}

/// The texts of what a request came to.
pub open spec fn chat_result_of(reply: HttpReply) -> Result<ApiResponseView, Seq<char>> {
    match reply {
        HttpReply::Failed(e) => Err(e@),
        HttpReply::Refused { status, body } => Err(
            refusal_text(status, body@, json_nested_text(body@, "error"@, "message"@)),
        ),
        HttpReply::Unreadable(e) => Err("Failed to parse response: "@ + e@),
        HttpReply::Answered { first_choice } => match first_choice {
            Some(r) => Ok(r@),
            None => Err("No response choices"@),
        },
    }
}

/// The view of the result of a request.
pub open spec fn chat_result_view(r: Result<ApiResponse, String>) -> Result<ApiResponseView, Seq<char>> {
    match r {
        Ok(a) => Ok(a@),
        Err(e) => Err(e@),
    }
}

/// What a request to the chat API came to: the answer of the model, or the
/// error to report.
pub fn chat(reply: HttpReply) -> (out: Result<ApiResponse, String>)
    ensures
        chat_result_view(out) == chat_result_of(reply),
{
    match reply {
        HttpReply::Failed(e) => Err(e),
        HttpReply::Refused { status, body } => {
            let message = nested_text_field(body.as_str(), "error", "message");
            Err(report_refusal(status, body.as_str(), &message))
        },
        HttpReply::Unreadable(e) => Err(
            crate::fileops::prefixed("Failed to parse response: ", e.as_str()),
        ),
        HttpReply::Answered { first_choice } => match first_choice {
            Some(r) => Ok(r),
            None => Err("No response choices".to_owned()),
        },
    }
}

} // verus!
