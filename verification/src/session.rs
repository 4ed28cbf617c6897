//! Sessions: the snapshots of a conversation that are kept on disk.

use std::fmt::Write;
use vstd::prelude::*;
use vstd::multiset::*;
use crate::journal::{
    chat_views, copy_chat, copy_wire, wire_views, ChatMessage, ChatMessageView, RoleView,
    WireMessage,
};
use crate::lines::{join, push_signed_decimal, signed_decimal};
use crate::paths::{join_path, joined};
use crate::sandbox::opt_str;
use crate::text::{chars_of, push_all, push_str, slice_of, string_of};

verus! {

/// A conversation as it is stored.
#[derive(Debug)]
pub struct Session {
    /// The time of creation, in seconds since the epoch, in decimal.
    pub id: String,
    pub created_at: i64,
    pub updated_at: i64,
    /// Taken from the first message of the user; empty until then.
    pub title: String,
    pub messages: Vec<ChatMessage>,
    pub api_messages: Vec<WireMessage>,
}

impl Session {
    /// A session that starts at the time `now`, with nothing in it.
    pub fn new(now: i64) -> (out: Self)
        ensures
            out.id@ == signed_decimal(now as int),
            out.created_at == now,
            out.updated_at == now,
            out.title@.len() == 0,
            out.messages@.len() == 0,
            out.api_messages@.len() == 0,
    {
        let mut id: Vec<char> = Vec::new();
        push_signed_decimal(&mut id, now);
        assert(id@ =~= signed_decimal(now as int));
        Session {
            id: string_of(&id),
            created_at: now,
            updated_at: now,
            title: String::new(),
            messages: Vec::new(),
            api_messages: Vec::new(),
        }
    }

    /// Whether two sessions hold the same.
    pub open spec fn same_as(&self, other: &Session) -> bool {
        &&& self.id@ == other.id@
        &&& self.created_at == other.created_at
        &&& self.updated_at == other.updated_at
        &&& self.title@ == other.title@
        &&& chat_views(self.messages@) == chat_views(other.messages@)
        &&& wire_views(self.api_messages@) == wire_views(other.api_messages@)
    }
}

impl Clone for Session {
    fn clone(&self) -> (out: Self)
        ensures
            out.same_as(self),
    {
        Session {
            id: self.id.clone(),
            created_at: self.created_at,
            updated_at: self.updated_at,
            title: self.title.clone(),
            messages: copy_chat(&self.messages),
            api_messages: copy_wire(&self.api_messages),
        }
    }
}

/// The position of the first message of the user, or the number of messages
/// where there is none.
pub open spec fn first_user(messages: Seq<ChatMessageView>) -> int
    decreases messages.len(),
{
    if messages.len() == 0 {
        0
    } else if messages[0].role == RoleView::User {
        0
    } else {
        1 + first_user(messages.drop_first())
    }
}

/// The title that a text gives: the text itself where it has 50 characters
/// at most, else its first 50 characters and three dots.
pub open spec fn title_of(content: Seq<char>) -> Seq<char> {
    if content.len() > 50 {
        content.take(50) + "..."@
    } else {
        content
    }
}

/// The title of a conversation: that of the first message of the user; empty
/// where the user has said nothing.
pub open spec fn session_title_of(messages: Seq<ChatMessageView>) -> Seq<char> {
    if first_user(messages) < messages.len() {
        title_of(messages[first_user(messages)].content)
    } else {
        Seq::<char>::empty()
    }
}

/// `first_user` is the least position of a message of the user.
pub proof fn first_user_is_first(messages: Seq<ChatMessageView>)
    ensures
        0 <= first_user(messages) <= messages.len(),
        first_user(messages) < messages.len() ==> messages[first_user(messages)].role
            == RoleView::User,
        forall|j: int| 0 <= j < first_user(messages) ==> messages[j].role != RoleView::User,
    decreases messages.len(),
{
    if messages.len() > 0 && messages[0].role != RoleView::User {
        first_user_is_first(messages.drop_first());
        assert forall|j: int| 0 <= j < first_user(messages) implies messages[j].role
            != RoleView::User by {
            if j > 0 {
                assert(messages.drop_first()[j - 1] == messages[j]);
            }
        }
    }
}

/// Computes `title_of`.
pub fn title_from(content: &str) -> (out: String)
    ensures
        out@ == title_of(content@),
{
    let c = chars_of(content);
    if c.len() > 50 {
        let mut head = slice_of(&c, 0, 50);
        assert(head@ =~= content@.take(50));
        push_str(&mut head, "...");
        string_of(&head)
    } else {
        string_of(&c)
    }
}

/// Computes `session_title_of`.
pub fn session_title(messages: &Vec<ChatMessage>) -> (out: String)
    ensures
        out@ == session_title_of(chat_views(messages@)),
{
    let mut i: usize = 0;
    while i < messages.len()
        invariant
            i <= messages.len(),
            forall|j: int| 0 <= j < i ==> chat_views(messages@)[j].role != RoleView::User,
        decreases messages.len() - i,
    {
        match &messages[i].role {
            crate::journal::MessageRole::User => {
                proof {
                    first_user_is_first(chat_views(messages@));
                    assert(chat_views(messages@)[i as int].role == RoleView::User);
                }
                return title_from(messages[i].content.as_str());
            },
            _ => {},
        }
        assert(chat_views(messages@)[i as int].role != RoleView::User);
        i += 1;
    }
    proof {
        first_user_is_first(chat_views(messages@));
    }
    String::new()
}

/// The directory of the sessions, under the user's configuration directory,
/// or under `.` where there is none.
pub open spec fn sessions_dir_of(config_dir: Option<Seq<char>>) -> Seq<char> {
    join_path(
        join_path(
            match config_dir {
                Some(d) => d,
                None => "."@,
            },
            "hal"@,
        ),
        "sessions"@,
    )
}

/// Computes `sessions_dir_of`.
pub fn sessions_dir(config_dir: Option<&str>) -> (out: String)
    ensures
        out@ == sessions_dir_of(opt_str(config_dir)),
{
    let base = match config_dir {
        Some(d) => chars_of(d),
        None => chars_of("."),
    };
    let dir = joined(&base, &chars_of("hal"));
    let out = joined(&dir, &chars_of("sessions"));
    string_of(&out)
}

/// The file of the session `id`.
pub fn session_file(config_dir: Option<&str>, id: &str) -> (out: String)
    ensures
        out@ == join_path(sessions_dir_of(opt_str(config_dir)), id@ + ".json"@),
{
    let dir = chars_of(sessions_dir(config_dir).as_str());
    let mut name = chars_of(id);
    push_str(&mut name, ".json");
    let out = joined(&dir, &name);
    string_of(&out)
}

/// Whether the sessions stand with the one updated last first.
pub open spec fn newest_first(sessions: Seq<Session>) -> bool {
    forall|i: int, j: int|
        0 <= i < j < sessions.len() ==> sessions[i].updated_at >= sessions[j].updated_at
}

/// The number of sessions at the start of the list that were not updated
/// before the time `at`.
pub open spec fn not_older(sessions: Seq<Session>, at: i64) -> int
    decreases sessions.len(),
{
    if sessions.len() > 0 && sessions[0].updated_at >= at {
        1 + not_older(sessions.drop_first(), at)
    } else {
        0
    }
}

/// The sessions in the order in which they are listed: the one updated last
/// first. Sessions updated at the same time keep their order.
pub open spec fn listed(sessions: Seq<Session>) -> Seq<Session>
    decreases sessions.len(),
{
    if sessions.len() == 0 {
        seq![]
    } else {
        let before = listed(sessions.drop_last());
        before.insert(not_older(before, sessions.last().updated_at), sessions.last())
    }
}

/// `not_older` counts the sessions of the list alone.
pub proof fn not_older_fits(sessions: Seq<Session>, at: i64)
    ensures
        0 <= not_older(sessions, at) <= sessions.len(),
    decreases sessions.len(),
{
    if sessions.len() > 0 && sessions[0].updated_at >= at {
        not_older_fits(sessions.drop_first(), at);
    }
}

/// The listed sessions are the given ones, the one updated last first.
pub proof fn listed_is_sorted(sessions: Seq<Session>)
    ensures
        listed(sessions).to_multiset() == sessions.to_multiset(),
        listed(sessions).len() == sessions.len(),
        newest_first(listed(sessions)),
    decreases sessions.len(),
{
    broadcast use group_multiset_axioms;

    if sessions.len() == 0 {
        assert(listed(sessions) =~= sessions);
    } else {
        let rest = sessions.drop_last();
        let s = sessions.last();
        let before = listed(rest);
        listed_is_sorted(rest);
        not_older_fits(before, s.updated_at);
        let p = not_older(before, s.updated_at);
        let now = before.insert(p, s);
        vstd::seq_lib::to_multiset_insert(before, p, s);
        assert(sessions =~= rest.push(s));
        vstd::seq_lib::to_multiset_build(rest, s);
        assert(now.to_multiset() =~= sessions.to_multiset());
        not_older_splits(before, s.updated_at);
        assert forall|i: int, j: int| 0 <= i < j < now.len() implies now[i].updated_at
            >= now[j].updated_at by {
            if j < p {
                assert(now[i] == before[i] && now[j] == before[j]);
            } else if j == p {
                assert(now[i] == before[i]);
            } else if i > p {
                assert(now[i] == before[i - 1] && now[j] == before[j - 1]);
            } else if i == p {
                assert(now[j] == before[j - 1]);
                if j - 1 > p {
                    assert(before[p].updated_at >= before[j - 1].updated_at);
                }
            } else {
                assert(now[i] == before[i] && now[j] == before[j - 1]);
            }
        }
    }
}

/// The sessions that `not_older` counts were not updated before `at`; the
/// next one, if there is one, was.
pub proof fn not_older_splits(sessions: Seq<Session>, at: i64)
    ensures
        forall|j: int| 0 <= j < not_older(sessions, at) ==> sessions[j].updated_at >= at,
        not_older(sessions, at) < sessions.len() ==> sessions[not_older(sessions, at)].updated_at
            < at,
    decreases sessions.len(),
{
    not_older_fits(sessions, at);
    if sessions.len() > 0 && sessions[0].updated_at >= at {
        let rest = sessions.drop_first();
        not_older_splits(rest, at);
        not_older_fits(rest, at);
        assert forall|j: int| 0 <= j < not_older(sessions, at) implies sessions[j].updated_at
            >= at by {
            if j > 0 {
                assert(rest[j - 1] == sessions[j]);
            }
        }
        if not_older(sessions, at) < sessions.len() {
            assert(rest[not_older(rest, at)] == sessions[not_older(sessions, at)]);
        }
    }
}

/// `not_older` is the position at which a scan from the start first finds a
/// session updated before `at`.
proof fn not_older_found(sessions: Seq<Session>, at: i64, p: int)
    requires
        0 <= p <= sessions.len(),
        forall|j: int| 0 <= j < p ==> sessions[j].updated_at >= at,
        p < sessions.len() ==> sessions[p].updated_at < at,
    ensures
        not_older(sessions, at) == p,
    decreases sessions.len(),
{
    if p > 0 {
        let rest = sessions.drop_first();
        assert forall|j: int| 0 <= j < p - 1 implies rest[j].updated_at >= at by {
            assert(rest[j] == sessions[j + 1]);
        }
        if p - 1 < rest.len() {
            assert(rest[p - 1] == sessions[p]);
        }
        not_older_found(rest, at, p - 1);
    }
}

/// The sessions, the one updated last first. Sessions updated at the same
/// time keep their order.
pub fn list_sessions(sessions: Vec<Session>) -> (out: Vec<Session>)
    ensures
        out@ == listed(sessions@),
        out@.to_multiset() == sessions@.to_multiset(),
        newest_first(out@),
{
    let mut rest = sessions;
    let mut out: Vec<Session> = Vec::new();
    let ghost all = sessions@;
    let ghost mut done: int = 0;
    assert(all.take(0) =~= Seq::<Session>::empty());
    while rest.len() > 0
        invariant
            0 <= done <= all.len(),
            rest@ == all.subrange(done, all.len() as int),
            out@ == listed(all.take(done)),
        decreases rest.len(),
    {
        let ghost out0 = out@;
        let s = rest.remove(0);
        let mut p: usize = 0;
        while p < out.len() && out[p].updated_at >= s.updated_at
            invariant
                p <= out.len(),
                out@ == out0,
                forall|j: int| 0 <= j < p ==> out@[j].updated_at >= s.updated_at,
            decreases out.len() - p,
        {
            p += 1;
        }
        proof {
            not_older_found(out0, s.updated_at, p as int);
            assert(s == all[done]);
            assert(all.take(done + 1).drop_last() =~= all.take(done));
            assert(all.take(done + 1).last() == s);
            assert(rest@ =~= all.subrange(done + 1, all.len() as int));
        }
        out.insert(p, s);
        proof {
            done = done + 1;
        }
    }
    proof {
        assert(all.take(done) =~= all);
        listed_is_sorted(all);
    }
    out
}

/// The session updated last, if there is any: the first of those that are
/// listed.
pub fn get_latest_session(sessions: Vec<Session>) -> (out: Option<Session>)
    ensures
        out is Some <==> sessions@.len() > 0,
        out is Some ==> out->0 == listed(sessions@)[0] && sessions@.contains(out->0) && forall|
            k: int,
        |
            0 <= k < sessions@.len() ==> sessions@[k].updated_at <= out->0.updated_at,
{
    broadcast use group_multiset_axioms;

    let mut sorted = list_sessions(sessions);
    proof {
        listed_is_sorted(sessions@);
        sorted@.to_multiset_ensures();
        sessions@.to_multiset_ensures();
    }
    if sorted.len() == 0 {
        None
    } else {
        let ghost all = sorted@;
        let first = sorted.remove(0);
        proof {
            assert(all[0] == first);
            assert(all.contains(first));
            assert(all.to_multiset().count(first) > 0);
            assert(sessions@.contains(first));
            assert forall|k: int| 0 <= k < sessions@.len() implies sessions@[k].updated_at
                <= first.updated_at by {
                assert(sessions@.contains(sessions@[k]));
                assert(sessions@.to_multiset().count(sessions@[k]) > 0);
                assert(all.contains(sessions@[k]));
                let j = choose|j: int| 0 <= j < all.len() && all[j] == sessions@[k];
                if j > 0 {
                    assert(all[0].updated_at >= all[j].updated_at);
                }
            }
        }
        Some(first)
    }
}

/// A time in UTC, `secs` seconds after the epoch, as `chrono` writes it for
/// a pattern; empty where `chrono` cannot hold the time or does not know the
/// pattern.
pub uninterp spec fn time_text(secs: int, pattern: Seq<char>) -> Seq<char>;

/// Makes a date and time of `secs` seconds since the epoch with
/// `chrono::DateTime::from_timestamp` and writes it with `DateTime::format`
/// for the given pattern; empty where the time is out of the range of
/// `chrono`, or where writing fails because the pattern is not known.
#[verifier::external_body]
pub(crate) fn format_time(secs: i64, pattern: &str) -> (out: String)
    ensures
        out@ == time_text(secs as int, pattern@),
{
    let mut out = String::new();
    if let Some(time) = chrono::DateTime::from_timestamp(secs, 0) {
        if write!(out, "{}", time.format(pattern)).is_err() {
            out.clear();
        }
    }
    out
}

/// The day and the minute of a time, as the list of the sessions shows them.
pub open spec fn timestamp_text(secs: int) -> Seq<char> {
    time_text(secs, "%Y-%m-%d %H:%M"@)
}

/// Writes the day and the minute of a time.
pub fn format_timestamp(secs: i64) -> (out: String)
    ensures
        out@ == timestamp_text(secs as int),
{
    format_time(secs, "%Y-%m-%d %H:%M")
}

/// The line that lists one session: its id, its title and when it was
/// updated.
pub open spec fn session_line(id: Seq<char>, title: Seq<char>, date: Seq<char>) -> Seq<char> {
    "**"@ + id + "** - "@ + (if title.len() == 0 {
        "(untitled)"@
    } else {
        title
    }) + " ("@ + date + ")"@
}

/// The lines that list the first sessions, ten at most.
pub open spec fn session_lines(sessions: Seq<Session>) -> Seq<Seq<char>> {
    Seq::new(
        if sessions.len() < 10 {
            sessions.len()
        } else {
            10
        },
        |i: int|
            session_line(
                sessions[i].id@,
                sessions[i].title@,
                timestamp_text(sessions[i].updated_at as int),
            ),
    )
}

/// What the list of the stored sessions says.
pub open spec fn sessions_text(sessions: Seq<Session>) -> Seq<char> {
    if sessions.len() == 0 {
        "No saved sessions."@
    } else {
        "**Saved sessions:**\n"@ + join(session_lines(sessions), "\n"@)
    }
}

/// Writes the line that lists one session.
pub fn format_session_line(id: &str, title: &str, date: &str) -> (out: Vec<char>)
    ensures
        out@ == session_line(id@, title@, date@),
{
    let mut out: Vec<char> = Vec::new();
    push_str(&mut out, "**");
    push_str(&mut out, id);
    push_str(&mut out, "** - ");
    if title.is_empty() {
        push_str(&mut out, "(untitled)");
    } else {
        push_str(&mut out, title);
    }
    push_str(&mut out, " (");
    push_str(&mut out, date);
    push_str(&mut out, ")");
    assert(out@ =~= session_line(id@, title@, date@));
    out
}

/// Lists the stored sessions, the first ten of them.
pub fn sessions_listing(sessions: &Vec<Session>) -> (out: String)
    ensures
        out@ == sessions_text(sessions@),
{
    if sessions.len() == 0 {
        return "No saved sessions.".to_owned();
    }
    let n: usize = if sessions.len() < 10 {
        sessions.len()
    } else {
        10
    };
    let mut lines: Vec<Vec<char>> = Vec::new();
    let mut i: usize = 0;
    while i < n
        invariant
            i <= n <= sessions.len(),
            lines.len() == i,
            forall|j: int|
                0 <= j < i ==> lines@[j]@ == session_line(
                    sessions@[j].id@,
                    sessions@[j].title@,
                    timestamp_text(sessions@[j].updated_at as int),
                ),
        decreases n - i,
    {
        let date = format_timestamp(sessions[i].updated_at);
        let line = format_session_line(
            sessions[i].id.as_str(),
            sessions[i].title.as_str(),
            date.as_str(),
        );
        lines.push(line);
        i += 1;
    }
    assert(crate::lines::texts(lines@) =~= session_lines(sessions@));
    let body = crate::lines::join_texts(&lines, &chars_of("\n"));
    let mut out: Vec<char> = Vec::new();
    push_str(&mut out, "**Saved sessions:**\n");
    push_all(&mut out, &body);
    string_of(&out)
}

} // verus!
