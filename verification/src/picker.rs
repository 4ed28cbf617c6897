//! The pickers of the input editor: which items a query selects.

use vstd::prelude::*;
use crate::lines::strs;
use crate::text::{chars_of, lowercase};

verus! {

/// The most items that a picker shows.
pub const MAX_PICKER_ITEMS: usize = 10;

/// Which picker is open.
#[derive(Debug, Clone, Copy, PartialEq, Eq, Structural)]
pub enum PickerMode {
    /// No picker is open.
    Closed,
    Files,
    Commands,
}

/// Whether the characters of `q` appear in `s` in order, not necessarily
/// next to each other.
pub open spec fn is_subsequence(q: Seq<char>, s: Seq<char>) -> bool
    decreases s.len(),
{
    if q.len() == 0 {
        true
    } else if s.len() == 0 {
        false
    } else if q[0] == s[0] {
        is_subsequence(q.drop_first(), s.drop_first())
    } else {
        is_subsequence(q, s.drop_first())
    }
}

/// Whether `pos` says where the characters of `q` stand in `s`, one after
/// the other: character `k` of `q` stands at position `pos[k]` of `s`, and
/// the positions increase.
pub open spec fn embeds(q: Seq<char>, s: Seq<char>, pos: Seq<int>) -> bool {
    &&& pos.len() == q.len()
    &&& forall|k: int| 0 <= k < pos.len() ==> 0 <= #[trigger] pos[k] < s.len() && s[pos[k]] == q[k]
    &&& forall|k: int, l: int| 0 <= k < l < pos.len() ==> #[trigger] pos[k] < #[trigger] pos[l]
}

/// The positions moved by `d`.
pub open spec fn shifted(pos: Seq<int>, d: int) -> Seq<int> {
    Seq::new(pos.len(), |k: int| pos[k] + d)
}

/// The characters of `q` appear in `s` in order if and only if there are
/// increasing positions of `s` at which they stand.
pub proof fn subsequence_iff_embedding(q: Seq<char>, s: Seq<char>)
    ensures
        is_subsequence(q, s) <==> exists|pos: Seq<int>| embeds(q, s, pos),
    decreases s.len(),
{
    if q.len() == 0 {
        assert(embeds(q, s, Seq::<int>::empty()));
    } else if s.len() == 0 {
        assert forall|pos: Seq<int>| !embeds(q, s, pos) by {
            if embeds(q, s, pos) {
                assert(0 <= pos[0] < s.len());
            }
        }
    } else {
        let q1 = q.drop_first();
        let s1 = s.drop_first();
        subsequence_iff_embedding(q1, s1);
        subsequence_iff_embedding(q, s1);
        if q[0] == s[0] {
            if is_subsequence(q1, s1) {
                let p1 = choose|p1: Seq<int>| embeds(q1, s1, p1);
                let pos = seq![0int] + shifted(p1, 1);
                assert forall|k: int| 0 <= k < pos.len() implies 0 <= #[trigger] pos[k] < s.len()
                    && s[pos[k]] == q[k] by {
                    if k > 0 {
                        assert(pos[k] == p1[k - 1] + 1);
                        assert(s1[p1[k - 1]] == q1[k - 1]);
                    }
                }
                assert forall|k: int, l: int| 0 <= k < l < pos.len() implies #[trigger] pos[k]
                    < #[trigger] pos[l] by {
                    assert(pos[l] == p1[l - 1] + 1);
                    if k > 0 {
                        assert(pos[k] == p1[k - 1] + 1);
                        assert(p1[k - 1] < p1[l - 1]);
                    }
                }
                assert(embeds(q, s, pos));
            }
            if exists|pos: Seq<int>| embeds(q, s, pos) {
                let pos = choose|pos: Seq<int>| embeds(q, s, pos);
                let p1 = shifted(pos.drop_first(), -1);
                assert forall|k: int| 0 <= k < p1.len() implies 0 <= #[trigger] p1[k] < s1.len()
                    && s1[p1[k]] == q1[k] by {
                    assert(p1[k] == pos[k + 1] - 1);
                    assert(pos[0] < pos[k + 1]);
                    assert(0 <= pos[0]);
                    assert(s[pos[k + 1]] == q[k + 1]);
                }
                assert forall|k: int, l: int| 0 <= k < l < p1.len() implies #[trigger] p1[k]
                    < #[trigger] p1[l] by {
                    assert(pos[k + 1] < pos[l + 1]);
                }
                assert(embeds(q1, s1, p1));
            }
        } else {
            if is_subsequence(q, s1) {
                let p1 = choose|p1: Seq<int>| embeds(q, s1, p1);
                let pos = shifted(p1, 1);
                assert forall|k: int| 0 <= k < pos.len() implies 0 <= #[trigger] pos[k] < s.len()
                    && s[pos[k]] == q[k] by {
                    assert(s1[p1[k]] == q[k]);
                }
                assert forall|k: int, l: int| 0 <= k < l < pos.len() implies #[trigger] pos[k]
                    < #[trigger] pos[l] by {
                    assert(p1[k] < p1[l]);
                }
                assert(embeds(q, s, pos));
            }
            if exists|pos: Seq<int>| embeds(q, s, pos) {
                let pos = choose|pos: Seq<int>| embeds(q, s, pos);
                let p1 = shifted(pos, -1);
                assert(0 <= pos[0] < s.len() && s[pos[0]] == q[0]);
                assert(pos[0] != 0);
                assert forall|k: int| 0 <= k < p1.len() implies 0 <= #[trigger] p1[k] < s1.len()
                    && s1[p1[k]] == q[k] by {
                    assert(p1[k] == pos[k] - 1);
                    if k > 0 {
                        assert(pos[0] < pos[k]);
                    }
                    assert(s[pos[k]] == q[k]);
                }
                assert forall|k: int, l: int| 0 <= k < l < p1.len() implies #[trigger] p1[k]
                    < #[trigger] p1[l] by {
                    assert(pos[k] < pos[l]);
                }
                assert(embeds(q, s1, p1));
            }
        }
    }
}

/// Whether a query selects an item: the characters of the query, in lower
/// case, appear in order in the item, in lower case.
pub open spec fn selects(query: Seq<char>, item: Seq<char>) -> bool {
    is_subsequence(lowercase(query), lowercase(item))
}

/// The items that a query selects, in their order.
pub open spec fn selected_items(items: Seq<Seq<char>>, query: Seq<char>) -> Seq<Seq<char>>
    decreases items.len(),
{
    if items.len() == 0 {
        seq![]
    } else if selects(query, items.last()) {
        selected_items(items.drop_last(), query).push(items.last())
    } else {
        selected_items(items.drop_last(), query)
    }
}

/// The first `max` of the items that a query selects.
pub open spec fn filtered(items: Seq<Seq<char>>, query: Seq<char>, max: nat) -> Seq<Seq<char>> {
    let all = selected_items(items, query);
    if all.len() <= max {
        all
    } else {
        all.take(max as int)
    }
}

/// An item is among the selected ones if and only if it is an item that the
/// query selects.
pub proof fn selected_items_are_the_matches(items: Seq<Seq<char>>, query: Seq<char>)
    ensures
        forall|x: Seq<char>|
            selected_items(items, query).contains(x) <==> (items.contains(x) && selects(query, x)),
    decreases items.len(),
{
    if items.len() > 0 {
        let rest = items.drop_last();
        let last = items.last();
        let before = selected_items(rest, query);
        let now = selected_items(items, query);
        selected_items_are_the_matches(rest, query);
        assert forall|x: Seq<char>| now.contains(x) implies items.contains(x) && selects(query, x) by {
            let i = choose|i: int| 0 <= i < now.len() && now[i] == x;
            if i < before.len() {
                assert(before[i] == x);
                assert(before.contains(x));
                assert(rest.contains(x) && selects(query, x));
                let j = choose|j: int| 0 <= j < rest.len() && rest[j] == x;
                assert(items[j] == x);
            } else {
                assert(items[items.len() - 1] == x);
            }
        }
        assert forall|x: Seq<char>| items.contains(x) && selects(query, x) implies now.contains(x) by {
            let j = choose|j: int| 0 <= j < items.len() && items[j] == x;
            if j < rest.len() {
                assert(rest[j] == x);
                assert(rest.contains(x));
                assert(before.contains(x));
                let i = choose|i: int| 0 <= i < before.len() && before[i] == x;
                assert(now[i] == x);
            } else {
                assert(now[now.len() - 1] == x);
            }
        }
    }
}

/// A query whose lower-case form is empty selects every item.
pub proof fn empty_query_selects_all(items: Seq<Seq<char>>, query: Seq<char>)
    requires
        lowercase(query).len() == 0,
    ensures
        selected_items(items, query) == items,
    decreases items.len(),
{
    if items.len() > 0 {
        empty_query_selects_all(items.drop_last(), query);
        assert(items.drop_last().push(items.last()) =~= items);
    }
}

/// What a longer list selects begins with what a shorter one selects.
pub proof fn selected_items_grow(items: Seq<Seq<char>>, query: Seq<char>, k: int)
    requires
        0 <= k <= items.len(),
    ensures
        selected_items(items.take(k), query).is_prefix_of(selected_items(items, query)),
    decreases items.len() - k,
{
    if k == items.len() {
        assert(items.take(k) =~= items);
    } else {
        selected_items_grow(items, query, k + 1);
        assert(items.take(k + 1).drop_last() =~= items.take(k));
    }
}

/// Decides `is_subsequence`.
pub fn subsequence_of(q: &Vec<char>, s: &Vec<char>) -> (is: bool)
    ensures
        is == is_subsequence(q@, s@),
{
    let mut qi: usize = 0;
    let mut si: usize = 0;
    assert(q@.skip(0) =~= q@ && s@.skip(0) =~= s@);
    while si < s.len() && qi < q.len()
        invariant
            qi <= q.len(),
            si <= s.len(),
            is_subsequence(q@, s@) == is_subsequence(q@.skip(qi as int), s@.skip(si as int)),
        decreases s.len() - si,
    {
        proof {
            assert(q@.skip(qi as int).drop_first() =~= q@.skip(qi + 1));
            assert(s@.skip(si as int).drop_first() =~= s@.skip(si + 1));
        }
        if q[qi] == s[si] {
            qi += 1;
        }
        si += 1;
    }
    qi == q.len()
}

/// The first `max` of the items that the query selects: those in which the
/// characters of the query appear in order, letter case set aside. The empty
/// query selects every item.
pub fn filter_items(items: &Vec<String>, query: &str, max: usize) -> (out: Vec<String>)
    ensures
        strs(out@) == filtered(strs(items@), query@, max as nat),
        query@.len() == 0 ==> strs(out@) == if items@.len() <= max {
            strs(items@)
        } else {
            strs(items@).take(max as int)
        },
        out.len() <= max,
        forall|i: int| 0 <= i < out.len() ==> strs(items@).contains(#[trigger] strs(out@)[i])
            && selects(query@, strs(out@)[i]),
        selected_items(strs(items@), query@).len() <= max ==> forall|x: Seq<char>|
            strs(out@).contains(x) <==> (strs(items@).contains(x) && selects(query@, x)),
{
    let q = chars_of(query.to_lowercase().as_str());
    let mut out: Vec<String> = Vec::new();
    let mut i: usize = 0;
    let ghost all = strs(items@);
    assert(all.take(0) =~= Seq::empty());
    assert(strs(out@) =~= Seq::empty());
    while i < items.len() && out.len() < max
        invariant
            i <= items.len(),
            all == strs(items@),
            q@ == lowercase(query@),
            out.len() <= max,
            strs(out@) == selected_items(all.take(i as int), query@),
        decreases items.len() - i,
    {
        proof {
            assert(all.take(i + 1).drop_last() =~= all.take(i as int));
            assert(all.take(i + 1).last() == items@[i as int]@);
        }
        let item = chars_of(items[i].to_lowercase().as_str());
        if subsequence_of(&q, &item) {
            let copy = items[i].clone();
            proof {
                assert(strs(out@.push(copy)) =~= strs(out@).push(copy@));
            }
            out.push(copy);
        }
        i += 1;
    }
    proof {
        let got = strs(out@);
        let full = selected_items(all, query@);
        selected_items_grow(all, query@, i as int);
        selected_items_are_the_matches(all, query@);
        assert(got.len() == out.len());
        if i == items.len() {
            assert(all.take(i as int) =~= all);
        } else {
            assert(got.len() == max);
            assert(got =~= full.take(max as int));
        }
        assert(got == filtered(all, query@, max as nat));
        if query@.len() == 0 {
            empty_query_selects_all(all, query@);
        }
        assert forall|j: int| 0 <= j < out.len() implies all.contains(#[trigger] got[j]) && selects(
            query@,
            got[j],
        ) by {
            assert(full[j] == got[j]);
            assert(full.contains(got[j]));
        }
    }
    out
}

/// The commands that the command picker offers.
pub open spec fn command_names() -> Seq<Seq<char>> {
    seq!["clear"@, "sessions"@, "load"@, "provider"@, "key"@, "help"@, "quit"@]
}

/// The commands that the command picker offers.
pub fn get_commands() -> (out: Vec<String>)
    ensures
        strs(out@) == command_names(),
{
    let mut out: Vec<String> = Vec::new();
    out.push("clear".to_owned());
    out.push("sessions".to_owned());
    out.push("load".to_owned());
    out.push("provider".to_owned());
    out.push("key".to_owned());
    out.push("help".to_owned());
    out.push("quit".to_owned());
    assert(strs(out@) =~= command_names());
    out
}

} // verus!
