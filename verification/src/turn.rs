//! The order of a turn in the wire log: an assistant's message that asks for
//! tool calls is followed by one result for each call, in the order of the
//! calls.

use vstd::prelude::*;
use crate::journal::{WireMessageView, WireRole};
use crate::json::{json_nested_text, json_text, nested_text_field, text_field, text_or};

verus! {

/// A call of a tool that the model asked for.
#[derive(Debug)]
pub struct ToolCall {
    pub id: String,
    pub name: String,
    /// The arguments, as JSON text.
    pub arguments: String,
}

impl Clone for ToolCall {
    fn clone(&self) -> (out: Self)
        ensures
            out.id@ == self.id@,
            out.name@ == self.name@,
            out.arguments@ == self.arguments@,
    {
        ToolCall {
            id: self.id.clone(),
            name: self.name.clone(),
            arguments: self.arguments.clone(),
        }
    }
}

/// The id of a tool call, read from its JSON text; empty where it has none.
pub open spec fn call_id(raw: Seq<char>) -> Seq<char> {
    text_or(json_text(raw, "id"@), ""@)
}

/// The name of the tool of a call; empty where it has none.
pub open spec fn call_name(raw: Seq<char>) -> Seq<char> {
    text_or(json_nested_text(raw, "function"@, "name"@), ""@)
}

/// The arguments of a call; an empty JSON object where it has none.
pub open spec fn call_arguments(raw: Seq<char>) -> Seq<char> {
    text_or(json_nested_text(raw, "function"@, "arguments"@), "{}"@)
}

/// The ids of the given calls.
pub open spec fn call_ids(raws: Seq<Seq<char>>) -> Seq<Seq<char>> {
    Seq::new(raws.len(), |i: int| call_id(raws[i]))
}

/// The ids of the calls of a queue.
pub open spec fn queue_ids(q: Seq<ToolCall>) -> Seq<Seq<char>> {
    Seq::new(q.len(), |i: int| q[i].id@)
}

/// Reads a tool call from its JSON text.
pub fn extract_call(raw: &str) -> (out: ToolCall)
    ensures
        out.id@ == call_id(raw@),
        out.name@ == call_name(raw@),
        out.arguments@ == call_arguments(raw@),
{
    let id = match text_field(raw, "id") {
        Some(s) => s,
        None => "".to_owned(),
    };
    let name = match nested_text_field(raw, "function", "name") {
        Some(s) => s,
        None => "".to_owned(),
    };
    let arguments = match nested_text_field(raw, "function", "arguments") {
        Some(s) => s,
        None => "{}".to_owned(),
    };
    ToolCall { id, name, arguments }
}

/// The id that a message of the wire log answers; empty where it names none.
pub open spec fn answered_id(m: WireMessageView) -> Seq<char> {
    text_or(m.tool_call_id, ""@)
}

/// Whether a message is one of the assistant that asks for tool calls.
pub open spec fn asks(m: WireMessageView) -> bool {
    m.role == WireRole::Assistant && m.tool_calls is Some
}

/// The ids of the calls that are yet to be answered after a message, given
/// those that were yet to be answered before it. A tool result has to answer
/// the first of them. Any other message has to find none of them left, and a
/// message of the assistant that asks for calls then leaves the ids of its
/// calls. `None` stands for a log that is out of order.
pub open spec fn after_message(before: Option<Seq<Seq<char>>>, m: WireMessageView) -> Option<
    Seq<Seq<char>>,
> {
    match before {
        None => None,
        Some(left) => if m.role == WireRole::Tool {
            if left.len() > 0 && left[0] == answered_id(m) {
                Some(left.drop_first())
            } else {
                None
            }
        } else if left.len() > 0 {
            None
        } else if asks(m) {
            Some(call_ids(m.tool_calls->0))
        } else {
            Some(Seq::empty())
        },
    }
}

/// The ids of the calls that a log has asked for and not answered yet, in
/// the order in which their results are due. The log is in order if every
/// message of the assistant that asks for tool calls is followed at once by
/// one result for each call, in the order of the calls, and no other result
/// stands in it; `None` stands for a log that is out of order.
pub open spec fn expected(log: Seq<WireMessageView>) -> Option<Seq<Seq<char>>>
    decreases log.len(),
{
    if log.len() == 0 {
        Some(Seq::empty())
    } else {
        after_message(expected(log.drop_last()), log.last())
    }
}

/// The number of times that `id` stands among the ids.
pub open spec fn count_id(ids: Seq<Seq<char>>, id: Seq<char>) -> nat
    decreases ids.len(),
{
    if ids.len() == 0 {
        0
    } else {
        count_id(ids.drop_last(), id) + if ids.last() == id {
            1nat
        } else {
            0nat
        }
    }
}

/// The number of calls with the id `id` that the assistant asks for in a
/// log.
pub open spec fn asked_count(log: Seq<WireMessageView>, id: Seq<char>) -> nat
    decreases log.len(),
{
    if log.len() == 0 {
        0
    } else {
        asked_count(log.drop_last(), id) + if asks(log.last()) {
            count_id(call_ids(log.last().tool_calls->0), id)
        } else {
            0nat
        }
    }
}

/// The number of tool results for the id `id` in a log.
pub open spec fn answered_count(log: Seq<WireMessageView>, id: Seq<char>) -> nat
    decreases log.len(),
{
    if log.len() == 0 {
        0
    } else {
        answered_count(log.drop_last(), id) + if log.last().role == WireRole::Tool && answered_id(
            log.last(),
        ) == id {
            1nat
        } else {
            0nat
        }
    }
}

/// Taking the first of the ids away takes one from the count of that id, and
/// nothing from the count of any other.
pub proof fn count_id_without_first(ids: Seq<Seq<char>>, id: Seq<char>)
    requires
        ids.len() > 0,
    ensures
        count_id(ids, id) == count_id(ids.drop_first(), id) + if ids[0] == id {
            1nat
        } else {
            0nat
        },
    decreases ids.len(),
{
    if ids.len() == 1 {
        assert(ids.drop_last() =~= Seq::<Seq<char>>::empty());
        assert(ids.drop_first() =~= Seq::<Seq<char>>::empty());
    } else {
        count_id_without_first(ids.drop_last(), id);
        assert(ids.drop_last().drop_first() =~= ids.drop_first().drop_last());
        assert(ids.drop_first().last() == ids.last());
    }
}

/// In a log that is in order, every id is asked for as often as it is
/// answered or still due. Where nothing is due any more, the log holds for
/// every id as many tool results as calls: exactly one result for the id of a
/// call whose id no other call shares, and no result that no call asked for.
pub proof fn asked_equals_answered(log: Seq<WireMessageView>, id: Seq<char>)
    requires
        expected(log) is Some,
    ensures
        asked_count(log, id) == answered_count(log, id) + count_id(expected(log)->0, id),
    decreases log.len(),
{
    if log.len() > 0 {
        let before = expected(log.drop_last());
        let m = log.last();
        asked_equals_answered(log.drop_last(), id);
        if m.role == WireRole::Tool {
            count_id_without_first(before->0, id);
        }
    }
}

/// Once every call asked for is answered, a log that is in order holds for
/// every id as many tool results as calls with that id: one result for every
/// call, and no result without a call.
pub proof fn settled_log_answers_every_call(log: Seq<WireMessageView>, id: Seq<char>)
    requires
        expected(log) == Some(Seq::<Seq<char>>::empty()),
    ensures
        answered_count(log, id) == asked_count(log, id),
{
    asked_equals_answered(log, id);
}

/// A log with a message added leaves what the message leaves of what the log
/// left.
pub proof fn expected_after_push(log: Seq<WireMessageView>, m: WireMessageView)
    ensures
        expected(log.push(m)) == after_message(expected(log), m),
{
    assert(log.push(m).drop_last() =~= log);
}

/// The part of a log from a position on, after a message is added to the
/// log, is that part with the message added.
pub proof fn tail_after_push(log: Seq<WireMessageView>, from: int, m: WireMessageView)
    requires
        0 <= from <= log.len(),
    ensures
        log.push(m).subrange(from, log.len() as int + 1) == log.subrange(from, log.len() as int).push(m),
{
    assert(log.push(m).subrange(from, log.len() as int + 1) =~= log.subrange(from, log.len() as int).push(
        m,
    ));
}

} // verus!
