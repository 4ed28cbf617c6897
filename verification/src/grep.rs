//! Searching the lines of files for a regular expression: which lines are
//! shown around the matches, and how.

use vstd::prelude::*;
use crate::fileops::prefixed;
use crate::lines::{decimal, join, join_strings, lines_of, push_decimal, split_lines, strs, texts};
use crate::text::{chars_of, push_all, push_str, string_of};

verus! {

/// Why the `regex` crate refuses a pattern; `None` for a pattern that it
/// takes.
pub uninterp spec fn regex_error(pattern: Seq<char>) -> Option<Seq<char>>;

/// Whether a pattern that the `regex` crate takes matches somewhere in a
/// line.
pub uninterp spec fn regex_hit(pattern: Seq<char>, line: Seq<char>) -> bool;

/// Compiles the pattern with `regex::Regex::new` and asks `Regex::is_match`
/// of every line. A pattern that does not compile gives the text of the
/// error of the crate.
#[verifier::external_body]
pub(crate) fn line_hits(pattern: &str, lines: &Vec<String>) -> (out: Result<Vec<bool>, String>)
    ensures
        match out {
            Ok(hits) => regex_error(pattern@) is None && hits@.len() == lines@.len() && forall|i: int|
                0 <= i < hits@.len() ==> hits@[i] == regex_hit(pattern@, #[trigger] lines@[i]@),
            Err(e) => regex_error(pattern@) == Some(e@),
        },
{
    let re = regex::Regex::new(pattern).map_err(|e| e.to_string())?;
    Ok(lines.iter().map(|l| re.is_match(l)).collect())
}

/// The first line shown for a match in line `i`.
pub open spec fn window_start(i: int, context: nat) -> int {
    if i - context < 0 {
        0
    } else {
        i - context
    }
}

/// The line after the last line shown for a match in line `i` of `n` lines.
pub open spec fn window_end(i: int, context: nat, n: int) -> int {
    if i + context + 1 > n {
        n
    } else {
        i + context + 1
    }
}

/// The ranges of lines that are shown for the matches in the first `upto`
/// lines: around each match `context` lines before and after it, and ranges
/// that overlap or touch joined into one.
pub open spec fn shown_ranges(hits: Seq<bool>, context: nat, upto: int) -> Seq<(int, int)>
    decreases upto,
{
    if upto <= 0 || upto > hits.len() {
        seq![]
    } else {
        let before = shown_ranges(hits, context, upto - 1);
        let i = upto - 1;
        if !hits[i] {
            before
        } else if before.len() > 0 && window_start(i, context) <= before.last().1 {
            before.drop_last().push((before.last().0, window_end(i, context, hits.len() as int)))
        } else {
            before.push((window_start(i, context), window_end(i, context, hits.len() as int)))
        }
    }
}

/// One line as a search shows it: the path, the number of the line, a colon
/// for a match or a hyphen for a line of context, and the line.
pub open spec fn shown_line(path: Seq<char>, number: nat, hit: bool, line: Seq<char>) -> Seq<char> {
    path + ":"@ + decimal(number) + (if hit {
        ":"@
    } else {
        "-"@
    }) + "  "@ + line
}

/// The lines of one range as a search shows them.
pub open spec fn range_lines(
    path: Seq<char>,
    lines: Seq<Seq<char>>,
    hits: Seq<bool>,
    range: (int, int),
) -> Seq<Seq<char>> {
    Seq::new(
        (range.1 - range.0) as nat,
        |k: int| shown_line(path, (range.0 + k + 1) as nat, hits[range.0 + k], lines[range.0 + k]),
    )
}

/// What a search shows of a file for the given ranges: the lines of each
/// range and, where context is shown, two hyphens after each range.
pub open spec fn ranges_output(
    path: Seq<char>,
    lines: Seq<Seq<char>>,
    hits: Seq<bool>,
    context: nat,
    ranges: Seq<(int, int)>,
) -> Seq<Seq<char>>
    decreases ranges.len(),
{
    if ranges.len() == 0 {
        seq![]
    } else {
        ranges_output(path, lines, hits, context, ranges.drop_last()) + range_lines(
            path,
            lines,
            hits,
            ranges.last(),
        ) + (if context > 0 {
            seq!["--"@]
        } else {
            Seq::<Seq<char>>::empty()
        })
    }
}

/// What a search shows of a file.
pub open spec fn file_output(path: Seq<char>, lines: Seq<Seq<char>>, hits: Seq<bool>, context: nat) -> Seq<
    Seq<char>,
> {
    ranges_output(path, lines, hits, context, shown_ranges(hits, context, hits.len() as int))
}

/// The ranges that a vector holds.
pub open spec fn range_views(v: Seq<(usize, usize)>) -> Seq<(int, int)> {
    Seq::new(v.len(), |i: int| (v[i].0 as int, v[i].1 as int))
}

/// Computes `shown_ranges`.
pub fn find_ranges(hits: &Vec<bool>, context: u64) -> (out: Vec<(usize, usize)>)
    ensures
        range_views(out@) == shown_ranges(hits@, context as nat, hits@.len() as int),
        forall|k: int| 0 <= k < out@.len() ==> (#[trigger] out@[k]).0 <= out@[k].1 <= hits@.len(),
{
    let n = hits.len();
    let mut out: Vec<(usize, usize)> = Vec::new();
    let mut i: usize = 0;
    assert(range_views(out@) =~= Seq::empty());
    while i < n
        invariant
            i <= n,
            n == hits.len(),
            range_views(out@) == shown_ranges(hits@, context as nat, i as int),
            forall|k: int| 0 <= k < out@.len() ==> (#[trigger] out@[k]).0 <= out@[k].1 <= n,
            forall|k: int| 0 <= k < out@.len() ==> (#[trigger] out@[k]).0 <= i,
        decreases n - i,
    {
        let ghost before = range_views(out@);
        assert(before.len() == out@.len());
        if hits[i] {
            let start: usize = if context >= i as u64 {
                0
            } else {
                i - context as usize
            };
            let end: usize = if context >= (n - i - 1) as u64 {
                n
            } else {
                i + context as usize + 1
            };
            assert(start as int == window_start(i as int, context as nat));
            assert(end as int == window_end(i as int, context as nat, n as int));
            let m = out.len();
            if m > 0 && start <= out[m - 1].1 {
                let first = out[m - 1].0;
                assert(before.last() == (out@[m - 1].0 as int, out@[m - 1].1 as int));
                out.set(m - 1, (first, end));
                assert(range_views(out@) =~= before.drop_last().push((first as int, end as int)));
            } else {
                if m > 0 {
                    assert(before.last() == (out@[m - 1].0 as int, out@[m - 1].1 as int));
                }
                out.push((start, end));
                assert(range_views(out@) =~= before.push((start as int, end as int)));
            }
        }
        i += 1;
    }
    out
}

fn push_range(
    results: &mut Vec<String>,
    path: &str,
    lines: &Vec<Vec<char>>,
    hits: &Vec<bool>,
    start: usize,
    end: usize,
)
    requires
        start <= end <= lines.len(),
        lines.len() == hits.len(),
    ensures
        strs(final(results)@) == strs(old(results)@) + range_lines(
            path@,
            texts(lines@),
            hits@,
            (start as int, end as int),
        ),
{
    let ghost want = range_lines(path@, texts(lines@), hits@, (start as int, end as int));
    let ghost base = strs(results@);
    let mut i: usize = start;
    assert(base + want.take(0) =~= base);
    while i < end
        invariant
            start <= i <= end <= lines.len(),
            lines.len() == hits.len(),
            want == range_lines(path@, texts(lines@), hits@, (start as int, end as int)),
            strs(results@) == base + want.take(i - start),
        decreases end - i,
    {
        let mut line: Vec<char> = Vec::new();
        push_str(&mut line, path);
        push_str(&mut line, ":");
        push_decimal(&mut line, i as u128 + 1);
        if hits[i] {
            push_str(&mut line, ":");
        } else {
            push_str(&mut line, "-");
        }
        push_str(&mut line, "  ");
        push_all(&mut line, &lines[i]);
        let s = string_of(&line);
        proof {
            assert(texts(lines@)[i as int] == lines@[i as int]@);
            assert(s@ =~= shown_line(path@, (i + 1) as nat, hits@[i as int], lines@[i as int]@));
            assert(s@ == want[i - start]);
            assert(strs(results@.push(s)) =~= strs(results@).push(s@));
            assert(want.take(i - start).push(s@) =~= want.take(i + 1 - start));
            assert(strs(results@).push(s@) =~= base + want.take(i + 1 - start));
        }
        results.push(s);
        i += 1;
    }
    assert(want.take(end - start) =~= want);
}

/// Adds to `results` what a search shows of a file, given for each of its
/// lines whether the pattern matches there.
pub fn grep_lines(
    results: &mut Vec<String>,
    path: &str,
    lines: &Vec<Vec<char>>,
    hits: &Vec<bool>,
    context: u64,
)
    requires
        lines.len() == hits.len(),
    ensures
        strs(final(results)@) == strs(old(results)@) + file_output(
            path@,
            texts(lines@),
            hits@,
            context as nat,
        ),
{
    let ranges = find_ranges(hits, context);
    let ghost all = range_views(ranges@);
    let ghost base = strs(results@);
    let mut k: usize = 0;
    assert(all.take(0) =~= Seq::empty());
    assert(base + ranges_output(path@, texts(lines@), hits@, context as nat, all.take(0)) =~= base);
    while k < ranges.len()
        invariant
            k <= ranges.len(),
            lines.len() == hits.len(),
            all == range_views(ranges@),
            forall|j: int|
                0 <= j < ranges@.len() ==> (#[trigger] ranges@[j]).0 <= ranges@[j].1 <= hits@.len(),
            strs(results@) == base + ranges_output(
                path@,
                texts(lines@),
                hits@,
                context as nat,
                all.take(k as int),
            ),
        decreases ranges.len() - k,
    {
        let (start, end) = ranges[k];
        proof {
            assert(all.take(k + 1).drop_last() =~= all.take(k as int));
            assert(all.take(k + 1).last() == (start as int, end as int));
        }
        let ghost mid = strs(results@);
        push_range(results, path, lines, hits, start, end);
        if context > 0 {
            let sep = "--".to_owned();
            assert(strs(results@.push(sep)) =~= strs(results@).push(sep@));
            results.push(sep);
        }
        k += 1;
        assert(strs(results@) =~= base + ranges_output(
            path@,
            texts(lines@),
            hits@,
            context as nat,
            all.take(k as int),
        ));
    }
    assert(all.take(k as int) =~= all);
}

/// What a search adds to its results for the file at `path` with the given
/// content: an error for a pattern that is no regular expression; else what
/// it shows of the file.
pub open spec fn grep_file_output(
    path: Seq<char>,
    content: Seq<char>,
    pattern: Seq<char>,
    context: nat,
) -> Result<Seq<Seq<char>>, Seq<char>> {
    match regex_error(pattern) {
        Some(e) => Err(e),
        None => Ok(
            file_output(
                path,
                lines_of(content),
                Seq::new(lines_of(content).len(), |i: int| regex_hit(pattern, lines_of(content)[i])),
                context,
            ),
        ),
    }
}

/// Searches the content of a file for a pattern and adds to `results` the
/// lines that are shown: the matches with the lines of context around them.
/// A pattern that is no regular expression gives the error and adds nothing.
pub fn grep_file(
    path: &str,
    content: &str,
    pattern: &str,
    context: u64,
    results: &mut Vec<String>,
) -> (out: Result<(), String>)
    ensures
        match grep_file_output(path@, content@, pattern@, context as nat) {
            Ok(shown) => out is Ok && strs(final(results)@) == strs(old(results)@) + shown,
            Err(e) => out is Err && out->Err_0@ == e && final(results)@ == old(results)@,
        },
{
    let lines = split_lines(&chars_of(content));
    assert(texts(lines@).len() == lines@.len());
    let as_strings = crate::lines::strings_of(&lines);
    match line_hits(pattern, &as_strings) {
        Err(e) => Err(e),
        Ok(hits) => {
            assert(hits@ =~= Seq::new(
                lines_of(content@).len(),
                |i: int| regex_hit(pattern@, lines_of(content@)[i]),
            ));
            grep_lines(results, path, &lines, &hits, context);
            Ok(())
        },
    }
}

/// Why a pattern is no regular expression, if it is none.
pub fn regex_problem(pattern: &str) -> (out: Option<String>)
    ensures
        crate::sandbox::opt_text(out) == regex_error(pattern@),
{
    let none: Vec<String> = Vec::new();
    match line_hits(pattern, &none) {
        Ok(_) => None,
        Err(e) => Some(e),
    }
}

/// What the tool that searches file contents gives back.
pub open spec fn grep_text(pattern: Seq<char>, problem: Option<Seq<char>>, results: Seq<Seq<char>>) -> Seq<
    char,
> {
    match problem {
        Some(e) => "Error: invalid regex: "@ + e,
        None => if results.len() == 0 {
            "grep '"@ + pattern + "': no matches"@
        } else {
            "grep '"@ + pattern + "':\n"@ + join(results, "\n"@)
        },
    }
}

/// What the tool that searches file contents gives back: the error of the
/// pattern, or the lines shown below a header.
pub fn tool_grep(pattern: &str, problem: &Option<String>, results: &Vec<String>) -> (out: String)
    ensures
        out@ == grep_text(pattern@, crate::sandbox::opt_text(*problem), strs(results@)),
{
    match problem {
        Some(e) => prefixed("Error: invalid regex: ", e.as_str()),
        None => {
            let mut out: Vec<char> = Vec::new();
            push_str(&mut out, "grep '");
            push_str(&mut out, pattern);
            if results.len() == 0 {
                push_str(&mut out, "': no matches");
                assert(out@ =~= "grep '"@ + pattern@ + "': no matches"@);
            } else {
                push_str(&mut out, "':\n");
                push_str(&mut out, join_strings(results, "\n").as_str());
                assert(out@ =~= "grep '"@ + pattern@ + "':\n"@ + join(strs(results@), "\n"@));
            }
            string_of(&out)
        },
    }
}

} // verus!
