//! Lines, joins, white space and decimal numbers over sequences of characters.

use vstd::prelude::*;
use crate::text::{chars_of, push_all, slice_of, string_of};

verus! {

/// The texts that a vector of strings holds.
pub open spec fn strs(v: Seq<String>) -> Seq<Seq<char>> {
    Seq::new(v.len(), |i: int| v[i]@)
}

/// The texts that a vector of character vectors holds.
pub open spec fn texts(v: Seq<Vec<char>>) -> Seq<Seq<char>> {
    Seq::new(v.len(), |i: int| v[i]@)
}

/// The position of the first text of `names` that equals `name`, or the
/// length of `names` where there is none.
pub open spec fn position_of(names: Seq<Seq<char>>, name: Seq<char>) -> int
    decreases names.len(),
{
    if names.len() == 0 {
        0
    } else if names[0] == name {
        0
    } else {
        1 + position_of(names.drop_first(), name)
    }
}

/// `position_of` is the least position that holds the name.
pub proof fn position_of_is_first(names: Seq<Seq<char>>, name: Seq<char>)
    ensures
        0 <= position_of(names, name) <= names.len(),
        position_of(names, name) < names.len() ==> names[position_of(names, name)] == name,
        forall|j: int| 0 <= j < position_of(names, name) ==> names[j] != name,
    decreases names.len(),
{
    if names.len() > 0 && names[0] != name {
        position_of_is_first(names.drop_first(), name);
        assert forall|j: int| 0 <= j < position_of(names, name) implies names[j] != name by {
            if j > 0 {
                assert(names.drop_first()[j - 1] == names[j]);
            }
        }
    }
}

/// The position of the first line feed of `s` at or after `i`; the length of
/// `s` where there is none.
pub open spec fn next_newline(s: Seq<char>, i: int) -> int
    decreases s.len() - i,
{
    if i < 0 || i >= s.len() {
        s.len() as int
    } else if s[i] == '\n' {
        i
    } else {
        next_newline(s, i + 1)
    }
}

/// A line without the carriage return that stood before its line feed.
pub open spec fn strip_cr(line: Seq<char>) -> Seq<char> {
    if line.len() > 0 && line.last() == '\r' {
        line.drop_last()
    } else {
        line
    }
}

/// The lines of `s` from position `i` on. A line ends at a line feed, or at a
/// carriage return followed by one; the last line needs no line ending, and
/// keeps a carriage return that it ends with.
pub open spec fn lines_from(s: Seq<char>, i: int) -> Seq<Seq<char>>
    decreases s.len() - i,
{
    if i < 0 || i >= s.len() {
        seq![]
    } else {
        let e = next_newline(s, i);
        if e >= s.len() {
            seq![s.subrange(i, s.len() as int)]
        } else if e >= i {
            seq![strip_cr(s.subrange(i, e))] + lines_from(s, e + 1)
        } else {
            seq![]
        }
    }
}

/// The lines of a text.
pub open spec fn lines_of(s: Seq<char>) -> Seq<Seq<char>> {
    lines_from(s, 0)
}

/// Computes `lines_of`.
pub fn split_lines(s: &Vec<char>) -> (out: Vec<Vec<char>>)
    ensures
        texts(out@) == lines_of(s@),
{
    let mut out: Vec<Vec<char>> = Vec::new();
    let mut start: usize = 0;
    let mut i: usize = 0;
    while i < s.len()
        invariant
            start <= i <= s.len(),
            lines_of(s@) == texts(out@) + lines_from(s@, start as int),
            next_newline(s@, start as int) == next_newline(s@, i as int),
        decreases s.len() - i,
    {
        if s[i] == '\n' {
            let end = if i > start && s[i - 1] == '\r' {
                i - 1
            } else {
                i
            };
            let line = slice_of(s, start, end);
            proof {
                assert(next_newline(s@, i as int) == i);
                assert(line@ =~= strip_cr(s@.subrange(start as int, i as int)));
                assert(texts(out@.push(line)) =~= texts(out@) + seq![line@]);
                assert(lines_from(s@, start as int) == seq![line@] + lines_from(s@, i + 1));
            }
            out.push(line);
            start = i + 1;
            proof {
                assert(texts(out@) + lines_from(s@, start as int) =~= lines_of(s@));
            }
        }
        i += 1;
    }
    if start < s.len() {
        let line = slice_of(s, start, s.len());
        proof {
            assert(next_newline(s@, i as int) == s.len());
            assert(texts(out@.push(line)) =~= texts(out@) + seq![line@]);
        }
        out.push(line);
    } else {
        assert(texts(out@) + lines_from(s@, start as int) =~= texts(out@));
    }
    out
}

/// The number of lines of a text.
pub fn count_lines(s: &Vec<char>) -> (n: usize)
    ensures
        n == lines_of(s@).len(),
{
    let lines = split_lines(s);
    assert(texts(lines@).len() == lines@.len());
    lines.len()
}

/// The parts, with `sep` between each two of them.
pub open spec fn join(parts: Seq<Seq<char>>, sep: Seq<char>) -> Seq<char>
    decreases parts.len(),
{
    if parts.len() == 0 {
        seq![]
    } else if parts.len() == 1 {
        parts[0]
    } else {
        join(parts.drop_last(), sep) + sep + parts.last()
    }
}

/// Computes `join`.
pub fn join_texts(parts: &Vec<Vec<char>>, sep: &Vec<char>) -> (out: Vec<char>)
    ensures
        out@ == join(texts(parts@), sep@),
{
    let mut out: Vec<char> = Vec::new();
    let mut i: usize = 0;
    while i < parts.len()
        invariant
            i <= parts.len(),
            out@ == join(texts(parts@).take(i as int), sep@),
        decreases parts.len() - i,
    {
        proof {
            let t = texts(parts@).take(i + 1);
            assert(t.drop_last() =~= texts(parts@).take(i as int));
            assert(t.last() == parts@[i as int]@);
            if i == 0 {
                assert(join(t, sep@) =~= parts@[0]@);
            }
        }
        if i > 0 {
            push_all(&mut out, sep);
        }
        push_all(&mut out, &parts[i]);
        i += 1;
        assert(out@ =~= join(texts(parts@).take(i as int), sep@));
    }
    assert(texts(parts@).take(i as int) =~= texts(parts@));
    out
}

/// Computes `join` over strings.
pub fn join_strings(parts: &Vec<String>, sep: &str) -> (out: String)
    ensures
        out@ == join(strs(parts@), sep@),
{
    let mut vs: Vec<Vec<char>> = Vec::new();
    let mut i: usize = 0;
    while i < parts.len()
        invariant
            i <= parts.len(),
            vs.len() == i,
            texts(vs@) == strs(parts@).take(i as int),
        decreases parts.len() - i,
    {
        let v = chars_of(parts[i].as_str());
        proof {
            let grown = texts(vs@.push(v));
            let want = strs(parts@).take(i + 1);
            assert forall|j: int| 0 <= j < i + 1 implies grown[j] == want[j] by {
                if j < i {
                    assert(texts(vs@)[j] == strs(parts@).take(i as int)[j]);
                }
            }
            assert(grown =~= want);
        }
        vs.push(v);
        i += 1;
    }
    assert(strs(parts@).take(i as int) =~= strs(parts@));
    let sepv = chars_of(sep);
    let joined = join_texts(&vs, &sepv);
    string_of(&joined)
}

/// The strings that hold the given texts.
pub fn strings_of(parts: &Vec<Vec<char>>) -> (out: Vec<String>)
    ensures
        strs(out@) == texts(parts@),
{
    let mut out: Vec<String> = Vec::new();
    let mut i: usize = 0;
    while i < parts.len()
        invariant
            i <= parts.len(),
            out.len() == i,
            strs(out@) == texts(parts@).take(i as int),
        decreases parts.len() - i,
    {
        let s = string_of(&parts[i]);
        proof {
            let grown = strs(out@.push(s));
            let want = texts(parts@).take(i + 1);
            assert forall|j: int| 0 <= j < i + 1 implies grown[j] == want[j] by {
                if j < i {
                    assert(strs(out@)[j] == texts(parts@).take(i as int)[j]);
                }
            }
            assert(grown =~= want);
        }
        out.push(s);
        i += 1;
    }
    assert(texts(parts@).take(i as int) =~= texts(parts@));
    out
}

/// The characters with the Unicode property White_Space.
pub open spec fn is_space(c: char) -> bool {
    let u = c as u32;
    (0x9 <= u <= 0xD) || u == 0x20 || u == 0x85 || u == 0xA0 || u == 0x1680 || (0x2000 <= u
        <= 0x200A) || u == 0x2028 || u == 0x2029 || u == 0x202F || u == 0x205F || u == 0x3000
}

/// Decides `is_space`.
pub fn space_char(c: char) -> (b: bool)
    ensures
        b == is_space(c),
{
    let u: u32 = c as u32;
    (0x9 <= u && u <= 0xD) || u == 0x20 || u == 0x85 || u == 0xA0 || u == 0x1680 || (0x2000 <= u
        && u <= 0x200A) || u == 0x2028 || u == 0x2029 || u == 0x202F || u == 0x205F || u
        == 0x3000
}

/// `s` without the white space it begins with.
pub open spec fn trim_start(s: Seq<char>) -> Seq<char>
    decreases s.len(),
{
    if s.len() > 0 && is_space(s[0]) {
        trim_start(s.drop_first())
    } else {
        s
    }
}

/// `s` without the white space it ends with.
pub open spec fn trim_end(s: Seq<char>) -> Seq<char>
    decreases s.len(),
{
    if s.len() > 0 && is_space(s.last()) {
        trim_end(s.drop_last())
    } else {
        s
    }
}

/// `s` without the white space at its two ends.
pub open spec fn trim(s: Seq<char>) -> Seq<char> {
    trim_end(trim_start(s))
}

/// Computes `trim`.
pub fn trimmed(s: &Vec<char>) -> (out: Vec<char>)
    ensures
        out@ == trim(s@),
{
    let mut a: usize = 0;
    assert(s@.skip(0) =~= s@);
    while a < s.len() && space_char(s[a])
        invariant
            a <= s.len(),
            trim_start(s@) == trim_start(s@.skip(a as int)),
        decreases s.len() - a,
    {
        proof {
            assert(s@.skip(a as int).drop_first() =~= s@.skip(a + 1));
        }
        a += 1;
    }
    assert(trim_start(s@) == s@.skip(a as int));
    let mut b: usize = s.len();
    while b > a && space_char(s[b - 1])
        invariant
            a <= b <= s.len(),
            trim(s@) == trim_end(s@.subrange(a as int, b as int)),
        decreases b,
    {
        proof {
            assert(s@.subrange(a as int, b as int).drop_last() =~= s@.subrange(a as int, b - 1));
        }
        b -= 1;
    }
    slice_of(s, a, b)
}

/// Computes `trim` over a string slice.
pub fn trim_str(s: &str) -> (out: String)
    ensures
        out@ == trim(s@),
{
    let v = chars_of(s);
    let t = trimmed(&v);
    string_of(&t)
}

/// The end of the run of characters other than white space that holds
/// position `i`.
pub open spec fn token_end(s: Seq<char>, i: int) -> int
    decreases s.len() - i,
{
    if i < 0 || i >= s.len() || is_space(s[i]) {
        i
    } else {
        token_end(s, i + 1)
    }
}

/// The maximal runs of characters other than white space in `s`, from
/// position `i` on.
pub open spec fn tokens_from(s: Seq<char>, i: int) -> Seq<Seq<char>>
    decreases s.len() - i,
{
    if i < 0 || i >= s.len() {
        seq![]
    } else if is_space(s[i]) {
        tokens_from(s, i + 1)
    } else {
        let e = token_end(s, i);
        if i < e <= s.len() {
            seq![s.subrange(i, e)] + tokens_from(s, e)
        } else {
            seq![]
        }
    }
}

/// The words of a text: its maximal runs of characters other than white space.
pub open spec fn words_of(s: Seq<char>) -> Seq<Seq<char>> {
    tokens_from(s, 0)
}

/// Computes `words_of`.
pub fn split_words(s: &Vec<char>) -> (out: Vec<Vec<char>>)
    ensures
        texts(out@) == words_of(s@),
{
    let mut out: Vec<Vec<char>> = Vec::new();
    let mut i: usize = 0;
    while i < s.len()
        invariant
            i <= s.len(),
            words_of(s@) == texts(out@) + tokens_from(s@, i as int),
        decreases s.len() - i,
    {
        if space_char(s[i]) {
            i += 1;
        } else {
            let start = i;
            while i < s.len() && !space_char(s[i])
                invariant
                    start <= i <= s.len(),
                    start < s.len(),
                    !is_space(s@[start as int]),
                    token_end(s@, start as int) == token_end(s@, i as int),
                decreases s.len() - i,
            {
                i += 1;
            }
            let word = slice_of(s, start, i);
            proof {
                assert(token_end(s@, i as int) == i);
                assert(i > start);
                assert(texts(out@.push(word)) =~= texts(out@) + seq![word@]);
                assert(tokens_from(s@, start as int) == seq![word@] + tokens_from(s@, i as int));
            }
            out.push(word);
            assert(texts(out@) + tokens_from(s@, i as int) =~= words_of(s@));
        }
    }
    assert(texts(out@) + tokens_from(s@, i as int) =~= texts(out@));
    out
}

/// The character of one decimal digit.
pub open spec fn digit_char(d: int) -> char {
    if d == 0 {
        '0'
    } else if d == 1 {
        '1'
    } else if d == 2 {
        '2'
    } else if d == 3 {
        '3'
    } else if d == 4 {
        '4'
    } else if d == 5 {
        '5'
    } else if d == 6 {
        '6'
    } else if d == 7 {
        '7'
    } else if d == 8 {
        '8'
    } else {
        '9'
    }
}

/// The decimal digits of a natural number, without leading zeros.
pub open spec fn decimal(n: nat) -> Seq<char>
    decreases n,
{
    if n < 10 {
        seq![digit_char(n as int)]
    } else {
        decimal(n / 10).push(digit_char((n % 10) as int))
    }
}

/// The decimal form of an integer, with a minus sign where it is negative.
pub open spec fn signed_decimal(i: int) -> Seq<char> {
    if i < 0 {
        seq!['-'] + decimal((-i) as nat)
    } else {
        decimal(i as nat)
    }
}

fn digit_of(d: u128) -> (c: char)
    requires
        d < 10,
    ensures
        c == digit_char(d as int),
{
    if d == 0 {
        '0'
    } else if d == 1 {
        '1'
    } else if d == 2 {
        '2'
    } else if d == 3 {
        '3'
    } else if d == 4 {
        '4'
    } else if d == 5 {
        '5'
    } else if d == 6 {
        '6'
    } else if d == 7 {
        '7'
    } else if d == 8 {
        '8'
    } else {
        '9'
    }
}

/// Appends the decimal digits of `n` to `out`.
pub fn push_decimal(out: &mut Vec<char>, n: u128)
    ensures
        final(out)@ == old(out)@ + decimal(n as nat),
    decreases n,
{
    if n < 10 {
        out.push(digit_of(n));
        assert(out@ =~= old(out)@ + decimal(n as nat));
    } else {
        push_decimal(out, n / 10);
        out.push(digit_of(n % 10));
        assert(out@ =~= old(out)@ + decimal(n as nat));
    }
}

/// Appends the decimal form of `i` to `out`.
pub fn push_signed_decimal(out: &mut Vec<char>, i: i64)
    ensures
        final(out)@ == old(out)@ + signed_decimal(i as int),
{
    if i < 0 {
        out.push('-');
        let m: u128 = if i == i64::MIN {
            9223372036854775808u128
        } else {
            (-i) as u128
        };
        push_decimal(out, m);
        assert(out@ =~= old(out)@ + signed_decimal(i as int));
    } else {
        push_decimal(out, i as u128);
    }
}

/// The decimal digits of a number, as a string.
pub fn decimal_string(n: u128) -> (out: String)
    ensures
        out@ == decimal(n as nat),
{
    let mut v: Vec<char> = Vec::new();
    push_decimal(&mut v, n);
    assert(v@ =~= decimal(n as nat));
    string_of(&v)
}

/// `s` with spaces put before it until it is `width` characters long.
pub open spec fn pad_left(s: Seq<char>, width: nat) -> Seq<char> {
    if s.len() >= width {
        s
    } else {
        Seq::new((width - s.len()) as nat, |i: int| ' ') + s
    }
}

/// Appends the decimal digits of `n`, right-aligned in `width` columns.
pub fn push_padded_decimal(out: &mut Vec<char>, n: u128, width: usize)
    ensures
        final(out)@ == old(out)@ + pad_left(decimal(n as nat), width as nat),
{
    let mut digits: Vec<char> = Vec::new();
    push_decimal(&mut digits, n);
    assert(digits@ =~= decimal(n as nat));
    let mut k: usize = digits.len();
    while k < width
        invariant
            digits.len() <= k,
            digits@ == decimal(n as nat),
            k <= width || k == digits.len(),
            out@ == old(out)@ + Seq::new((k - digits.len()) as nat, |i: int| ' '),
        decreases width - k,
    {
        out.push(' ');
        k += 1;
        assert(out@ =~= old(out)@ + Seq::new((k - digits.len()) as nat, |i: int| ' '));
    }
    push_all(out, &digits);
    assert(out@ =~= old(out)@ + pad_left(decimal(n as nat), width as nat));
}

} // verus!
