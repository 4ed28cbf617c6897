//! The short form in which the transcript shows the result of a tool.

use vstd::prelude::*;
use crate::lines::{decimal, join, join_texts, lines_of, push_decimal, split_lines, texts};
use crate::sandbox::opt_str;
use crate::text::{
    chars_of, contains_text, ends_with, has_prefix, has_suffix, has_text, push_all, push_str,
    slice_of, starts_with, string_of, vec_eq,
};

verus! {

/// A text cut after 60 characters, with three dots where it was longer.
pub open spec fn cut60(s: Seq<char>) -> Seq<char> {
    if s.len() > 60 {
        s.take(60) + "..."@
    } else {
        s
    }
}

/// Each of the texts cut after 60 characters.
pub open spec fn all_cut60(list: Seq<Seq<char>>) -> Seq<Seq<char>> {
    Seq::new(list.len(), |i: int| cut60(list[i]))
}

/// The lines of a search result that show something: those that are neither
/// empty nor the two hyphens between ranges.
pub open spec fn shown_matches(lines: Seq<Seq<char>>) -> Seq<Seq<char>>
    decreases lines.len(),
{
    if lines.len() == 0 {
        seq![]
    } else if lines.last().len() == 0 || lines.last() == "--"@ {
        shown_matches(lines.drop_last())
    } else {
        shown_matches(lines.drop_last()).push(lines.last())
    }
}

/// The pattern that the header of a search result names, or a question mark.
pub open spec fn grep_pattern(header: Seq<char>) -> Seq<char> {
    let rest = header.subrange("grep '"@.len() as int, header.len() as int);
    if starts_with(header, "grep '"@) && ends_with(rest, "':"@) {
        rest.take(rest.len() - "':"@.len())
    } else {
        "?"@
    }
}

/// The summary of a file that was read.
pub open spec fn read_summary(path: Option<Seq<char>>, result: Seq<char>) -> Seq<char> {
    match path {
        Some(p) => "Read "@ + p + " ("@ + decimal(lines_of(result).len()) + " lines)"@,
        None => "Read file ("@ + decimal(lines_of(result).len()) + " lines)"@,
    }
}

/// The summary of a listing: the names themselves where they are eight at
/// most, else their number.
pub open spec fn list_summary(path: Option<Seq<char>>, result: Seq<char>) -> Seq<char> {
    let dir = match path {
        Some(p) => p,
        None => "."@,
    };
    if lines_of(result).len() <= 8 {
        "Listed "@ + dir + " ("@ + join(lines_of(result), "  "@) + ")"@
    } else {
        "Listed "@ + dir + " ("@ + decimal(lines_of(result).len()) + " items)"@
    }
}

/// The summary of a search for files: the files themselves where they are six
/// at most, else their number.
pub open spec fn search_summary(result: Seq<char>) -> Seq<char> {
    if lines_of(result).len() <= 6 {
        "Found "@ + join(lines_of(result), ", "@)
    } else {
        "Found "@ + decimal(lines_of(result).len()) + " files"@
    }
}

/// The summary of a write: the first line of its report.
pub open spec fn write_summary(result: Seq<char>) -> Seq<char> {
    if lines_of(result).len() > 0 {
        lines_of(result)[0]
    } else {
        result
    }
}

/// The summary of a shell command: the command and its output, of which the
/// first eight lines are shown where it has more than ten.
pub open spec fn bash_summary(result: Seq<char>) -> Seq<char> {
    let lines = lines_of(result);
    let cmd = if lines.len() > 0 {
        lines[0]
    } else {
        "$ ?"@
    };
    let output = if lines.len() > 0 {
        lines.subrange(1, lines.len() as int)
    } else {
        lines
    };
    if output.len() == 0 {
        cmd
    } else if output.len() <= 10 {
        cmd + "\n"@ + join(output, "\n"@)
    } else {
        cmd + "\n"@ + join(output.take(8), "\n"@) + "\n... ("@ + decimal((output.len() - 8) as nat)
            + " more lines)"@
    }
}

/// The summary of a search in files: the lines shown where they are four at
/// most, else their number and the first three, each cut after 60
/// characters.
pub open spec fn grep_summary(result: Seq<char>) -> Seq<char> {
    let lines = lines_of(result);
    let header = if lines.len() > 0 {
        lines[0]
    } else {
        Seq::<char>::empty()
    };
    let rest = if lines.len() > 0 {
        lines.subrange(1, lines.len() as int)
    } else {
        lines
    };
    let matches = shown_matches(rest);
    let pattern = grep_pattern(header);
    if matches.len() == 0 || contains_text(result, "no matches"@) {
        "Grep '"@ + pattern + "': no matches"@
    } else if matches.len() <= 4 {
        "Grep '"@ + pattern + "':\n"@ + join(all_cut60(matches), "\n"@)
    } else {
        "Grep '"@ + pattern + "': "@ + decimal(matches.len()) + " matches\n"@ + join(
            all_cut60(matches.take(3)),
            "\n"@,
        ) + "\n..."@
    }
}

/// The short form of the result of a tool. An error is shown as it is.
pub open spec fn tool_summary(name: Seq<char>, path: Option<Seq<char>>, result: Seq<char>) -> Seq<
    char,
> {
    if starts_with(result, "Error"@) {
        result
    } else if name == "read_file"@ {
        read_summary(path, result)
    } else if name == "list_dir"@ {
        list_summary(path, result)
    } else if name == "search_files"@ {
        search_summary(result)
    } else if name == "write_file"@ {
        write_summary(result)
    } else if name == "bash"@ {
        bash_summary(result)
    } else if name == "grep"@ {
        grep_summary(result)
    } else {
        cut60(result)
    }
}

fn cut(s: &Vec<char>) -> (out: Vec<char>)
    ensures
        out@ == cut60(s@),
{
    if s.len() > 60 {
        let mut out = slice_of(s, 0, 60);
        assert(out@ =~= s@.take(60));
        push_str(&mut out, "...");
        out
    } else {
        let out = slice_of(s, 0, s.len());
        assert(out@ =~= s@);
        out
    }
}

fn cut_all(list: &Vec<Vec<char>>, n: usize) -> (out: Vec<Vec<char>>)
    requires
        n <= list.len(),
    ensures
        texts(out@) == all_cut60(texts(list@).take(n as int)),
{
    let mut out: Vec<Vec<char>> = Vec::new();
    let mut i: usize = 0;
    while i < n
        invariant
            i <= n <= list.len(),
            out.len() == i,
            forall|j: int| 0 <= j < i ==> out@[j]@ == cut60(list@[j]@),
        decreases n - i,
    {
        out.push(cut(&list[i]));
        i += 1;
    }
    assert(texts(out@) =~= all_cut60(texts(list@).take(n as int)));
    out
}

fn tail_of(lines: &Vec<Vec<char>>) -> (out: Vec<Vec<char>>)
    ensures
        texts(out@) == if lines@.len() > 0 {
            texts(lines@).subrange(1, lines@.len() as int)
        } else {
            texts(lines@)
        },
{
    let mut out: Vec<Vec<char>> = Vec::new();
    let mut i: usize = 1;
    while i < lines.len()
        invariant
            1 <= i,
            i <= lines.len() || i == 1,
            out.len() == i - 1,
            forall|j: int| 0 <= j < i - 1 ==> out@[j]@ == lines@[j + 1]@,
        decreases lines.len() - i,
    {
        let l = slice_of(&lines[i], 0, lines[i].len());
        assert(l@ =~= lines@[i as int]@);
        out.push(l);
        i += 1;
    }
    proof {
        if lines@.len() > 0 {
            assert(texts(out@) =~= texts(lines@).subrange(1, lines@.len() as int));
        } else {
            assert(texts(out@) =~= texts(lines@));
        }
    }
    out
}

fn count_into(out: &mut Vec<char>, before: &str, n: usize, after: &str)
    ensures
        final(out)@ == old(out)@ + before@ + decimal(n as nat) + after@,
{
    push_str(out, before);
    push_decimal(out, n as u128);
    push_str(out, after);
    assert(out@ =~= old(out)@ + before@ + decimal(n as nat) + after@);
}

fn summarize_bash(result: &Vec<char>) -> (out: Vec<char>)
    ensures
        out@ == bash_summary(result@),
{
    let lines = split_lines(result);
    assert(texts(lines@).len() == lines@.len());
    let mut out: Vec<char> = Vec::new();
    if lines.len() > 0 {
        assert(texts(lines@)[0] == lines@[0]@);
        push_all(&mut out, &lines[0]);
    } else {
        push_str(&mut out, "$ ?");
    }
    let output = tail_of(&lines);
    assert(texts(output@).len() == output@.len());
    if output.len() == 0 {
        assert(out@ =~= bash_summary(result@));
    } else if output.len() <= 10 {
        push_str(&mut out, "\n");
        push_all(&mut out, &join_texts(&output, &chars_of("\n")));
        assert(out@ =~= bash_summary(result@));
    } else {
        let mut head: Vec<Vec<char>> = Vec::new();
        let mut i: usize = 0;
        while i < 8
            invariant
                i <= 8,
                output.len() > 10,
                head.len() == i,
                forall|j: int| 0 <= j < i ==> head@[j]@ == output@[j]@,
            decreases 8 - i,
        {
            let l = slice_of(&output[i], 0, output[i].len());
            assert(l@ =~= output@[i as int]@);
            head.push(l);
            i += 1;
        }
        assert(texts(head@) =~= texts(output@).take(8));
        push_str(&mut out, "\n");
        push_all(&mut out, &join_texts(&head, &chars_of("\n")));
        count_into(&mut out, "\n... (", output.len() - 8, " more lines)");
        assert(out@ =~= bash_summary(result@));
    }
    out
}

fn pattern_of(header: &Vec<char>) -> (out: Vec<char>)
    ensures
        out@ == grep_pattern(header@),
{
    let prefix = chars_of("grep '");
    let suffix = chars_of("':");
    if has_prefix(header, &prefix) {
        let rest = slice_of(header, prefix.len(), header.len());
        if has_suffix(&rest, &suffix) {
            let out = slice_of(&rest, 0, rest.len() - suffix.len());
            assert(out@ =~= rest@.take(rest@.len() - "':"@.len()));
            return out;
        }
    }
    chars_of("?")
}

fn shown_of(lines: &Vec<Vec<char>>) -> (out: Vec<Vec<char>>)
    ensures
        texts(out@) == shown_matches(texts(lines@)),
{
    let sep = chars_of("--");
    let mut out: Vec<Vec<char>> = Vec::new();
    let mut i: usize = 0;
    assert(texts(lines@).take(0) =~= Seq::empty());
    assert(texts(out@) =~= Seq::empty());
    while i < lines.len()
        invariant
            i <= lines.len(),
            sep@ == "--"@,
            texts(out@) == shown_matches(texts(lines@).take(i as int)),
        decreases lines.len() - i,
    {
        proof {
            let t = texts(lines@).take(i + 1);
            assert(t.drop_last() =~= texts(lines@).take(i as int));
            assert(t.last() == lines@[i as int]@);
        }
        if lines[i].len() > 0 && !vec_eq(&lines[i], &sep) {
            let l = slice_of(&lines[i], 0, lines[i].len());
            assert(l@ =~= lines@[i as int]@);
            assert(texts(out@.push(l)) =~= texts(out@).push(l@));
            out.push(l);
        }
        i += 1;
    }
    assert(texts(lines@).take(i as int) =~= texts(lines@));
    out
}

fn summarize_grep(result: &Vec<char>) -> (out: Vec<char>)
    ensures
        out@ == grep_summary(result@),
{
    let lines = split_lines(result);
    assert(texts(lines@).len() == lines@.len());
    let pattern = if lines.len() > 0 {
        assert(texts(lines@)[0] == lines@[0]@);
        pattern_of(&lines[0])
    } else {
        let none: Vec<char> = Vec::new();
        assert(none@ =~= Seq::<char>::empty());
        pattern_of(&none)
    };
    let matches = shown_of(&tail_of(&lines));
    assert(texts(matches@).len() == matches@.len());
    let mut out: Vec<char> = Vec::new();
    push_str(&mut out, "Grep '");
    push_all(&mut out, &pattern);
    if matches.len() == 0 || has_text(result, &chars_of("no matches")) {
        push_str(&mut out, "': no matches");
        assert(out@ =~= grep_summary(result@));
    } else if matches.len() <= 4 {
        push_str(&mut out, "':\n");
        let shown = cut_all(&matches, matches.len());
        assert(texts(matches@).take(matches@.len() as int) =~= texts(matches@));
        push_all(&mut out, &join_texts(&shown, &chars_of("\n")));
        assert(out@ =~= grep_summary(result@));
    } else {
        count_into(&mut out, "': ", matches.len(), " matches\n");
        let shown = cut_all(&matches, 3);
        push_all(&mut out, &join_texts(&shown, &chars_of("\n")));
        push_str(&mut out, "\n...");
        assert(out@ =~= grep_summary(result@));
    }
    out
}

fn summarize_listing(path: Option<&str>, result: &Vec<char>) -> (out: Vec<char>)
    ensures
        out@ == list_summary(opt_str(path), result@),
{
    let lines = split_lines(result);
    assert(texts(lines@).len() == lines@.len());
    let mut out: Vec<char> = Vec::new();
    push_str(&mut out, "Listed ");
    match path {
        Some(p) => push_str(&mut out, p),
        None => push_str(&mut out, "."),
    }
    if lines.len() <= 8 {
        push_str(&mut out, " (");
        push_all(&mut out, &join_texts(&lines, &chars_of("  ")));
        push_str(&mut out, ")");
    } else {
        count_into(&mut out, " (", lines.len(), " items)");
    }
    assert(out@ =~= list_summary(opt_str(path), result@));
    out
}

fn is_named(name: &str, word: &str) -> (b: bool)
    ensures
        b == (name@ == word@),
{
    crate::text::str_eq(name, word)
}

/// The short form in which the transcript shows the result of a tool.
pub fn format_tool_result(name: &str, path: Option<&str>, result: &str) -> (out: String)
    ensures
        out@ == tool_summary(name@, opt_str(path), result@),
{
    let r = chars_of(result);
    if has_prefix(&r, &chars_of("Error")) {
        return result.to_owned();
    }
    let mut out: Vec<char> = Vec::new();
    if is_named(name, "read_file") {
        let n = crate::lines::count_lines(&r);
        match path {
            Some(p) => {
                push_str(&mut out, "Read ");
                push_str(&mut out, p);
                count_into(&mut out, " (", n, " lines)");
            },
            None => {
                count_into(&mut out, "Read file (", n, " lines)");
            },
        }
        assert(out@ =~= read_summary(opt_str(path), result@));
    } else if is_named(name, "list_dir") {
        out = summarize_listing(path, &r);
    } else if is_named(name, "search_files") {
        let files = split_lines(&r);
        assert(texts(files@).len() == files@.len());
        if files.len() <= 6 {
            push_str(&mut out, "Found ");
            push_all(&mut out, &join_texts(&files, &chars_of(", ")));
        } else {
            count_into(&mut out, "Found ", files.len(), " files");
        }
        assert(out@ =~= search_summary(result@));
    } else if is_named(name, "write_file") {
        let lines = split_lines(&r);
        assert(texts(lines@).len() == lines@.len());
        if lines.len() > 0 {
            assert(texts(lines@)[0] == lines@[0]@);
            push_all(&mut out, &lines[0]);
        } else {
            push_all(&mut out, &r);
        }
        assert(out@ =~= write_summary(result@));
    } else if is_named(name, "bash") {
        out = summarize_bash(&r);
    } else if is_named(name, "grep") {
        out = summarize_grep(&r);
    } else {
        out = cut(&r);
    }
    string_of(&out)
}

} // verus!
