//! The order of strings, and sorting by it.

use vstd::prelude::*;
use vstd::multiset::*;
use crate::lines::strs;
use crate::text::chars_of;

verus! {

/// Whether `a` comes before `b`, or is `b`, in the order of strings: by the
/// first character in which they differ, a prefix before what it is a prefix
/// of.
pub open spec fn lex_le(a: Seq<char>, b: Seq<char>) -> bool
    decreases a.len(),
{
    if a.len() == 0 {
        true
    } else if b.len() == 0 {
        false
    } else if a[0] != b[0] {
        (a[0] as u32) < (b[0] as u32)
    } else {
        lex_le(a.drop_first(), b.drop_first())
    }
}

/// Whether the texts stand in the order of strings.
pub open spec fn sorted(list: Seq<Seq<char>>) -> bool {
    forall|i: int, j: int| 0 <= i < j < list.len() ==> lex_le(list[i], list[j])
}

/// Of two texts, one comes before the other or is the other.
pub proof fn lex_le_total(a: Seq<char>, b: Seq<char>)
    ensures
        lex_le(a, b) || lex_le(b, a),
    decreases a.len(),
{
    if a.len() > 0 && b.len() > 0 {
        if a[0] == b[0] {
            lex_le_total(a.drop_first(), b.drop_first());
        } else {
            vstd::utf8::char_u32_cast(a[0], a[0] as u32);
            vstd::utf8::char_u32_cast(b[0], b[0] as u32);
        }
    }
}

/// What comes before a text comes before everything that the text comes
/// before.
pub proof fn lex_le_transitive(a: Seq<char>, b: Seq<char>, c: Seq<char>)
    requires
        lex_le(a, b),
        lex_le(b, c),
    ensures
        lex_le(a, c),
    decreases a.len(),
{
    if a.len() > 0 {
        if a[0] == b[0] && b[0] == c[0] {
            lex_le_transitive(a.drop_first(), b.drop_first(), c.drop_first());
        }
    }
}

/// Decides `lex_le`.
pub fn comes_before(a: &Vec<char>, b: &Vec<char>) -> (out: bool)
    ensures
        out == lex_le(a@, b@),
{
    let mut i: usize = 0;
    assert(a@.skip(0) =~= a@ && b@.skip(0) =~= b@);
    while i < a.len() && i < b.len() && a[i] == b[i]
        invariant
            i <= a.len(),
            i <= b.len(),
            lex_le(a@, b@) == lex_le(a@.skip(i as int), b@.skip(i as int)),
        decreases a.len() - i,
    {
        proof {
            assert(a@.skip(i as int).drop_first() =~= a@.skip(i + 1));
            assert(b@.skip(i as int).drop_first() =~= b@.skip(i + 1));
        }
        i += 1;
    }
    if i == a.len() {
        true
    } else if i == b.len() {
        false
    } else {
        (a[i] as u32) < (b[i] as u32)
    }
}

/// Sorts strings into the order of strings. Strings that are the same keep
/// their order.
pub fn sort_strings(list: &mut Vec<String>)
    ensures
        strs(final(list)@).to_multiset() == strs(old(list)@).to_multiset(),
        sorted(strs(final(list)@)),
{
    broadcast use group_multiset_axioms;

    let mut out: Vec<String> = Vec::new();
    assert(strs(out@).to_multiset() =~= Multiset::empty()) by {
        strs(out@).to_multiset_ensures();
    }
    while list.len() > 0
        invariant
            strs(list@).to_multiset().add(strs(out@).to_multiset()) == strs(old(list)@).to_multiset(),
            sorted(strs(out@)),
        decreases list.len(),
    {
        let ghost rest0 = strs(list@);
        let ghost out0 = strs(out@);
        let s = list.remove(0);
        let key = chars_of(s.as_str());
        let mut p: usize = 0;
        assert(out0.len() == out@.len());
        while p < out.len() && comes_before(&chars_of(out[p].as_str()), &key)
            invariant
                p <= out.len(),
                out0 == strs(out@),
                key@ == s@,
                forall|j: int| 0 <= j < p ==> lex_le(out0[j], s@),
            decreases out.len() - p,
        {
            p += 1;
        }
        out.insert(p, s);
        proof {
            let now = strs(out@);
            assert(strs(list@) =~= rest0.remove(0));
            assert(now =~= out0.insert(p as int, s@));
            assert(rest0[0] == s@);
            vstd::seq_lib::to_multiset_remove(rest0, 0);
            vstd::seq_lib::to_multiset_insert(out0, p as int, s@);
            rest0.to_multiset_ensures();
            assert(rest0.to_multiset().count(s@) > 0);
            assert(strs(list@).to_multiset().add(now.to_multiset()) =~= rest0.to_multiset().add(
                out0.to_multiset(),
            ));
            assert forall|i: int, j: int| 0 <= i < j < now.len() implies lex_le(now[i], now[j]) by {
                if j < p {
                    assert(now[i] == out0[i] && now[j] == out0[j]);
                } else if j == p {
                    assert(now[i] == out0[i]);
                } else if i > p {
                    assert(now[i] == out0[i - 1] && now[j] == out0[j - 1]);
                } else {
                    assert(now[j] == out0[j - 1]);
                    assert(!lex_le(out0[p as int], s@));
                    lex_le_total(out0[p as int], s@);
                    if j - 1 > p {
                        assert(lex_le(out0[p as int], out0[j - 1]));
                        lex_le_transitive(s@, out0[p as int], out0[j - 1]);
                    }
                    if i < p {
                        assert(now[i] == out0[i]);
                        lex_le_transitive(out0[i], s@, out0[j - 1]);
                    }
                }
            }
        }
    }
    proof {
        strs(list@).to_multiset_ensures();
        assert(strs(list@).to_multiset() =~= Multiset::empty());
    }
    *list = out;
}

} // verus!
