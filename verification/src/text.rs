//! Character-level building blocks for the string handling of the agent.
//!
//! Every string is modelled as its sequence of characters (`Seq<char>`);
//! the executable functions work on `Vec<char>` and convert at their edges.

use vstd::prelude::*;

verus! {

/// `String::push` appends one character to the end of the string.
pub assume_specification[ String::push ](s: &mut String, c: char)
    ensures
        final(s)@ == old(s)@.push(c),
;

/// The lower-case form of a text, as `str::to_lowercase` computes it from the
/// Unicode case mapping.
pub uninterp spec fn lowercase(s: Seq<char>) -> Seq<char>;

/// `str::to_lowercase` returns the lower-case equivalent of the slice as a new
/// string; the result depends on the characters alone, and that of the empty
/// slice is empty.
pub assume_specification[ str::to_lowercase ](s: &str) -> (out: String)
    ensures
        out@ == lowercase(s@),
        s@.len() == 0 ==> out@.len() == 0,
;

/// The characters of a string slice, in order.
pub fn chars_of(s: &str) -> (out: Vec<char>)
    ensures
        out@ == s@,
{
    let mut out: Vec<char> = Vec::new();
    for c in it: s.chars()
        invariant
            out@ == it.seq().take(it.index() as int),
            it.seq() == s@,
    {
        out.push(c);
    }
    out
}

/// The string that holds exactly the given characters.
pub fn string_of(chars: &Vec<char>) -> (out: String)
    ensures
        out@ == chars@,
{
    let mut out = String::new();
    let mut i: usize = 0;
    while i < chars.len()
        invariant
            i <= chars.len(),
            out@ == chars@.take(i as int),
        decreases chars.len() - i,
    {
        out.push(chars[i]);
        i += 1;
    }
    out
}

/// Appends all of `tail` to `out`.
pub fn push_all(out: &mut Vec<char>, tail: &Vec<char>)
    ensures
        final(out)@ == old(out)@ + tail@,
{
    let mut i: usize = 0;
    while i < tail.len()
        invariant
            i <= tail.len(),
            out@ == old(out)@ + tail@.take(i as int),
        decreases tail.len() - i,
    {
        out.push(tail[i]);
        i += 1;
    }
}

/// Appends the characters of a string slice to `out`.
pub fn push_str(out: &mut Vec<char>, tail: &str)
    ensures
        final(out)@ == old(out)@ + tail@,
{
    let t = chars_of(tail);
    push_all(out, &t);
}

/// The characters `from .. to` of `s`, copied.
pub fn slice_of(s: &Vec<char>, from: usize, to: usize) -> (out: Vec<char>)
    requires
        from <= to <= s.len(),
    ensures
        out@ == s@.subrange(from as int, to as int),
{
    let mut out: Vec<char> = Vec::new();
    let mut i: usize = from;
    while i < to
        invariant
            from <= i <= to <= s.len(),
            out@ == s@.subrange(from as int, i as int),
        decreases to - i,
    {
        out.push(s[i]);
        i += 1;
    }
    out
}

/// Whether `pat` stands in `s` at position `i`.
pub open spec fn occurs_at(s: Seq<char>, pat: Seq<char>, i: int) -> bool {
    0 <= i && i + pat.len() <= s.len() && s.subrange(i, i + pat.len()) == pat
}

/// Whether `pat` stands somewhere in `s`.
pub open spec fn contains_text(s: Seq<char>, pat: Seq<char>) -> bool {
    exists|i: int| occurs_at(s, pat, i)
}

/// Whether `s` begins with `pat`.
pub open spec fn starts_with(s: Seq<char>, pat: Seq<char>) -> bool {
    occurs_at(s, pat, 0)
}

/// Whether `s` ends with `pat`.
pub open spec fn ends_with(s: Seq<char>, pat: Seq<char>) -> bool {
    occurs_at(s, pat, s.len() - pat.len())
}

/// Decides `occurs_at`.
pub fn matches_at(s: &Vec<char>, pat: &Vec<char>, i: usize) -> (found: bool)
    ensures
        found == occurs_at(s@, pat@, i as int),
{
    if pat.len() > s.len() || i > s.len() - pat.len() {
        return false;
    }
    let mut k: usize = 0;
    while k < pat.len()
        invariant
            k <= pat.len(),
            i + pat.len() <= s.len(),
            forall|j: int| 0 <= j < k ==> s@[i + j] == pat@[j],
        decreases pat.len() - k,
    {
        if s[i + k] != pat[k] {
            proof {
                let sub = s@.subrange(i as int, i + pat.len());
                assert(sub[k as int] == s@[i + k]);
            }
            return false;
        }
        k += 1;
    }
    assert(s@.subrange(i as int, i + pat.len()) =~= pat@);
    true
}

/// Decides `starts_with`.
pub fn has_prefix(s: &Vec<char>, pat: &Vec<char>) -> (found: bool)
    ensures
        found == starts_with(s@, pat@),
{
    matches_at(s, pat, 0)
}

/// Decides `ends_with`.
pub fn has_suffix(s: &Vec<char>, pat: &Vec<char>) -> (found: bool)
    ensures
        found == ends_with(s@, pat@),
{
    if pat.len() > s.len() {
        return false;
    }
    matches_at(s, pat, s.len() - pat.len())
}

/// The least position at or after `from` where `pat` stands in `s`,
/// or `None` where there is none.
pub fn find_from(s: &Vec<char>, pat: &Vec<char>, from: usize) -> (at: Option<usize>)
    ensures
        match at {
            Some(i) => from <= i && occurs_at(s@, pat@, i as int) && forall|j: int|
                from <= j < i ==> !occurs_at(s@, pat@, j),
            None => forall|j: int| from <= j ==> !occurs_at(s@, pat@, j),
        },
{
    if from > s.len() {
        return None;
    }
    let mut i: usize = from;
    while i < s.len()
        invariant
            from <= i <= s.len(),
            forall|j: int| from <= j < i ==> !occurs_at(s@, pat@, j),
        decreases s.len() - i,
    {
        if matches_at(s, pat, i) {
            return Some(i);
        }
        i += 1;
    }
    if matches_at(s, pat, i) {
        Some(i)
    } else {
        None
    }
}

/// Decides `contains_text`.
pub fn has_text(s: &Vec<char>, pat: &Vec<char>) -> (found: bool)
    ensures
        found == contains_text(s@, pat@),
{
    match find_from(s, pat, 0) {
        Some(i) => {
            assert(occurs_at(s@, pat@, i as int));
            true
        },
        None => false,
    }
}

/// Decides `contains_text` for two string slices.
pub fn str_contains(s: &str, pat: &str) -> (found: bool)
    ensures
        found == contains_text(s@, pat@),
{
    let sv = chars_of(s);
    let pv = chars_of(pat);
    has_text(&sv, &pv)
}

/// Decides `starts_with` for two string slices.
pub fn str_starts_with(s: &str, pat: &str) -> (found: bool)
    ensures
        found == starts_with(s@, pat@),
{
    let sv = chars_of(s);
    let pv = chars_of(pat);
    has_prefix(&sv, &pv)
}

/// Whether two string slices hold the same characters.
pub fn str_eq(a: &str, b: &str) -> (same: bool)
    ensures
        same == (a@ == b@),
{
    let av = chars_of(a);
    let bv = chars_of(b);
    vec_eq(&av, &bv)
}

/// Whether two character vectors hold the same characters.
pub fn vec_eq(a: &Vec<char>, b: &Vec<char>) -> (same: bool)
    ensures
        same == (a@ == b@),
{
    if a.len() != b.len() {
        return false;
    }
    let mut i: usize = 0;
    while i < a.len()
        invariant
            i <= a.len(),
            a.len() == b.len(),
            forall|j: int| 0 <= j < i ==> a@[j] == b@[j],
        decreases a.len() - i,
    {
        if a[i] != b[i] {
            return false;
        }
        i += 1;
    }
    assert(a@ =~= b@);
    true
}

/// The last position before `before` where `c` stands in `s`, or -1.
pub open spec fn last_index_of(s: Seq<char>, c: char, before: int) -> int
    decreases before,
{
    if before <= 0 || before > s.len() {
        -1
    } else if s[before - 1] == c {
        before - 1
    } else {
        last_index_of(s, c, before - 1)
    }
}

/// Computes `last_index_of`.
pub fn find_last(s: &Vec<char>, c: char, before: usize) -> (out: Option<usize>)
    requires
        before <= s.len(),
    ensures
        match out {
            Some(i) => i as int == last_index_of(s@, c, before as int) && i < before && s@[i as int]
                == c,
            None => last_index_of(s@, c, before as int) == -1,
        },
{
    let mut k: usize = before;
    while k > 0
        invariant
            k <= before <= s.len(),
            last_index_of(s@, c, before as int) == last_index_of(s@, c, k as int),
        decreases k,
    {
        if s[k - 1] == c {
            return Some(k - 1);
        }
        k -= 1;
    }
    None
}

/// The number of occurrences of `pat` in `s` that a scan from the left finds
/// at or after `i`, each one starting after the end of the one before it.
/// The empty pattern is not counted.
pub open spec fn count_from(s: Seq<char>, pat: Seq<char>, i: int) -> nat
    decreases s.len() + 1 - i,
{
    if pat.len() == 0 || i < 0 || i + pat.len() > s.len() {
        0
    } else if occurs_at(s, pat, i) {
        1 + count_from(s, pat, i + pat.len())
    } else {
        count_from(s, pat, i + 1)
    }
}

/// The number of non-overlapping occurrences of `pat` in `s`.
pub open spec fn count_matches(s: Seq<char>, pat: Seq<char>) -> nat {
    count_from(s, pat, 0)
}

/// Computes `count_matches`.
pub fn count_occurrences(s: &Vec<char>, pat: &Vec<char>) -> (n: usize)
    ensures
        n == count_matches(s@, pat@),
{
    if pat.len() == 0 {
        return 0;
    }
    let mut n: usize = 0;
    let mut i: usize = 0;
    while i < s.len() && pat.len() <= s.len() - i
        invariant
            pat.len() > 0,
            i <= s.len(),
            n + count_from(s@, pat@, i as int) == count_matches(s@, pat@),
            n <= i,
        decreases s.len() - i,
    {
        if matches_at(s, pat, i) {
            n += 1;
            i = i + pat.len();
        } else {
            i += 1;
        }
    }
    n
}

/// `s` with its first occurrence of `pat` replaced by `with`;
/// `s` itself where `pat` does not occur.
pub open spec fn replace_first(s: Seq<char>, pat: Seq<char>, with: Seq<char>) -> Seq<char> {
    if contains_text(s, pat) {
        let i = choose|i: int| occurs_at(s, pat, i) && forall|j: int| 0 <= j < i ==> !occurs_at(s, pat, j);
        s.subrange(0, i) + with + s.subrange(i + pat.len(), s.len() as int)
    } else {
        s
    }
}

/// Computes `replace_first`.
pub fn replace_once(s: &Vec<char>, pat: &Vec<char>, with: &Vec<char>) -> (out: Vec<char>)
    ensures
        out@ == replace_first(s@, pat@, with@),
{
    match find_from(s, pat, 0) {
        Some(i) => {
            proof {
                assert(occurs_at(s@, pat@, i as int));
                let k = choose|k: int|
                    occurs_at(s@, pat@, k) && forall|j: int| 0 <= j < k ==> !occurs_at(s@, pat@, j);
                assert(k == i) by {
                    if k < i {
                        assert(!occurs_at(s@, pat@, k));
                    }
                    if i < k {
                        assert(!occurs_at(s@, pat@, i as int));
                    }
                }
            }
            let mut out = slice_of(s, 0, i);
            push_all(&mut out, with);
            let rest = slice_of(s, i + pat.len(), s.len());
            push_all(&mut out, &rest);
            out
        },
        None => {
            proof {
                if contains_text(s@, pat@) {
                    let k = choose|k: int| occurs_at(s@, pat@, k);
                    assert(!occurs_at(s@, pat@, k));
                }
            }
            let out = slice_of(s, 0, s.len());
            assert(out@ =~= s@);
            out
        },
    }
}

} // verus!
