//! What the file tools give back: the lines read, the single edit, and the
//! report of a write.

use vstd::prelude::*;
use crate::diff::{
    diff_text, format_diff, format_diff_with_context, line_diff, line_diff_hunks, plain_diff_text,
};
use crate::lines::{
    decimal, join, join_texts, lines_of, pad_left, push_decimal, push_padded_decimal, split_lines,
    texts,
};
use crate::text::{
    chars_of, count_matches, count_occurrences, push_all, push_str, replace_first, replace_once,
    str_eq, string_of,
};

verus! {

/// The lines `from .. to` of a text, counted from 0, each after its number
/// (counted from 1), a colon and a space.
pub open spec fn numbered(lines: Seq<Seq<char>>, from: int, to: int) -> Seq<Seq<char>> {
    Seq::new((to - from) as nat, |k: int| decimal((from + k + 1) as nat) + ": "@ + lines[from + k])
}

/// The position, counted from 0, of the first line that is wanted.
pub open spec fn first_wanted(start_line: Option<u64>) -> int {
    match start_line {
        Some(s) => if s == 0 {
            0
        } else {
            s - 1
        },
        None => 0,
    }
}

/// The position, counted from 0, after the last line that is wanted.
pub open spec fn end_wanted(end_line: Option<u64>, n: int) -> int {
    match end_line {
        Some(e) => if e < n {
            e as int
        } else {
            n
        },
        None => n,
    }
}

/// What reading lines `start_line ..= end_line` (counted from 1) of a text
/// gives: the whole text where no bound is given; an error where the first
/// line wanted lies beyond the end; else the lines with their numbers. A range
/// that ends before it starts selects nothing.
pub open spec fn selected_lines(content: Seq<char>, start_line: Option<u64>, end_line: Option<u64>) -> Seq<
    char,
> {
    let lines = lines_of(content);
    let from = first_wanted(start_line);
    let to = end_wanted(end_line, lines.len() as int);
    if start_line is None && end_line is None {
        content
    } else if start_line is Some && from >= lines.len() {
        "Error: start_line "@ + decimal(start_line->0 as nat) + " exceeds file length ("@ + decimal(
            lines.len(),
        ) + ")"@
    } else if to <= from {
        Seq::<char>::empty()
    } else {
        join(numbered(lines, from, to), "\n"@)
    }
}

/// What the tool that reads a file gives back, from what came of reading it.
pub open spec fn read_file_text(
    read: Result<Seq<char>, Seq<char>>,
    start_line: Option<u64>,
    end_line: Option<u64>,
) -> Seq<char> {
    match read {
        Ok(content) => selected_lines(content, start_line, end_line),
        Err(e) => "Error reading file: "@ + e,
    }
}

/// The texts of a result of strings.
pub open spec fn res_text(r: Result<String, String>) -> Result<Seq<char>, Seq<char>> {
    match r {
        Ok(s) => Ok(s@),
        Err(e) => Err(e@),
    }
}

/// The text of the error of a step that gives nothing back.
pub open spec fn unit_res_text(r: Result<(), String>) -> Result<(), Seq<char>> {
    match r {
        Ok(_) => Ok(()),
        Err(e) => Err(e@),
    }
}

fn usize_of(n: u64) -> (out: usize)
    ensures
        out as int == if n <= usize::MAX {
            n as int
        } else {
            usize::MAX as int
        },
{
    if n <= usize::MAX as u64 {
        n as usize
    } else {
        usize::MAX
    }
}

/// A message made of a prefix and a text.
pub fn prefixed(prefix: &str, tail: &str) -> (out: String)
    ensures
        out@ == prefix@ + tail@,
{
    let mut out: Vec<char> = Vec::new();
    push_str(&mut out, prefix);
    push_str(&mut out, tail);
    assert(out@ =~= prefix@ + tail@);
    string_of(&out)
}

/// The selected lines of a text with their numbers.
pub fn select_lines(content: &str, start_line: Option<u64>, end_line: Option<u64>) -> (out: String)
    ensures
        out@ == selected_lines(content@, start_line, end_line),
{
    if start_line.is_none() && end_line.is_none() {
        return content.to_owned();
    }
    let text = chars_of(content);
    let lines = split_lines(&text);
    assert(texts(lines@).len() == lines@.len());
    let n = lines.len();
    let from: usize = match start_line {
        Some(s) => if s == 0 {
            0
        } else {
            usize_of(s - 1)
        },
        None => 0,
    };
    let to: usize = match end_line {
        Some(e) => if usize_of(e) < n {
            usize_of(e)
        } else {
            n
        },
        None => n,
    };
    if start_line.is_some() && from >= n {
        let mut out: Vec<char> = Vec::new();
        push_str(&mut out, "Error: start_line ");
        push_decimal(&mut out, start_line.unwrap() as u128);
        push_str(&mut out, " exceeds file length (");
        push_decimal(&mut out, n as u128);
        push_str(&mut out, ")");
        assert(out@ =~= selected_lines(content@, start_line, end_line));
        return string_of(&out);
    }
    assert(from as int == first_wanted(start_line) || (from >= n && first_wanted(start_line) >= n));
    if to <= from {
        let out: Vec<char> = Vec::new();
        assert(out@ =~= Seq::<char>::empty());
        return string_of(&out);
    }
    let mut picked: Vec<Vec<char>> = Vec::new();
    let mut i: usize = from;
    while i < to
        invariant
            from <= i <= to <= n,
            n == lines.len(),
            picked.len() == i - from,
            texts(picked@) == numbered(texts(lines@), from as int, i as int),
        decreases to - i,
    {
        let mut line: Vec<char> = Vec::new();
        push_decimal(&mut line, i as u128 + 1);
        push_str(&mut line, ": ");
        push_all(&mut line, &lines[i]);
        proof {
            assert(line@ =~= decimal((i + 1) as nat) + ": "@ + lines@[i as int]@);
            let grown = texts(picked@.push(line));
            let want = numbered(texts(lines@), from as int, i + 1);
            assert(texts(lines@)[i as int] == lines@[i as int]@);
            assert forall|j: int| 0 <= j < grown.len() implies grown[j] == want[j] by {
                if j < picked@.len() {
                    assert(grown[j] == texts(picked@)[j]);
                    assert(texts(picked@)[j] == numbered(texts(lines@), from as int, i as int)[j]);
                }
            }
            assert(grown =~= want);
        }
        picked.push(line);
        i += 1;
    }
    let joined = join_texts(&picked, &chars_of("\n"));
    string_of(&joined)
}

/// What the tool that reads a file gives back.
pub fn tool_read_file(read: &Result<String, String>, start_line: Option<u64>, end_line: Option<u64>) -> (out:
    String)
    ensures
        out@ == read_file_text(res_text(*read), start_line, end_line),
{
    match read {
        Ok(content) => select_lines(content.as_str(), start_line, end_line),
        Err(e) => prefixed("Error reading file: ", e.as_str()),
    }
}

/// Why an edit is refused, from the number of times the old text occurs.
pub open spec fn edit_error(path: Seq<char>, count: nat) -> Seq<char> {
    if count == 0 {
        "Error: text not found in "@ + path
    } else {
        "Error: text appears "@ + decimal(count) + " times in "@ + path + " - be more specific"@
    }
}

/// What an edit makes of a text: the text with the one occurrence of `old`
/// replaced by `new`; an error unless `old` occurs exactly once.
pub open spec fn edited(path: Seq<char>, content: Seq<char>, old: Seq<char>, new: Seq<char>) -> Result<
    Seq<char>,
    Seq<char>,
> {
    if count_matches(content, old) == 1 {
        Ok(replace_first(content, old, new))
    } else {
        Err(edit_error(path, count_matches(content, old)))
    }
}

/// Replaces the one occurrence of `old` in `content` by `new`. The edit is
/// made if and only if `old` occurs exactly once; else the error says so, and
/// how often it occurs.
pub fn apply_edit(path: &str, content: &str, old: &str, new: &str) -> (out: Result<String, String>)
    ensures
        out is Ok <==> count_matches(content@, old@) == 1,
        res_text(out) == edited(path@, content@, old@, new@),
{
    let c = chars_of(content);
    let o = chars_of(old);
    let count = count_occurrences(&c, &o);
    if count == 0 {
        Err(prefixed("Error: text not found in ", path))
    } else if count > 1 {
        let mut out: Vec<char> = Vec::new();
        push_str(&mut out, "Error: text appears ");
        push_decimal(&mut out, count as u128);
        push_str(&mut out, " times in ");
        push_str(&mut out, path);
        push_str(&mut out, " - be more specific");
        assert(out@ =~= edit_error(path@, count as nat));
        Err(string_of(&out))
    } else {
        let n = chars_of(new);
        let updated = replace_once(&c, &o, &n);
        Ok(string_of(&updated))
    }
}

/// What an edit makes of a file, from what came of reading it.
pub open spec fn edit_update_of(
    path: Seq<char>,
    old: Seq<char>,
    new: Seq<char>,
    read: Result<Seq<char>, Seq<char>>,
) -> Result<Seq<char>, Seq<char>> {
    match read {
        Ok(content) => edited(path, content, old, new),
        Err(e) => Err("Error reading file: "@ + e),
    }
}

/// The new content of a file that is edited, or the error that the tool gives
/// back in place of the edit.
pub fn edit_update(path: &str, old: &str, new: &str, read: &Result<String, String>) -> (out: Result<
    String,
    String,
>)
    ensures
        res_text(out) == edit_update_of(path@, old@, new@, res_text(*read)),
{
    match read {
        Ok(content) => apply_edit(path, content.as_str(), old, new),
        Err(e) => Err(prefixed("Error reading file: ", e.as_str())),
    }
}

/// The lines, each after `mark` and before a line feed.
pub open spec fn marked_lines(mark: char, lines: Seq<Seq<char>>) -> Seq<char>
    decreases lines.len(),
{
    if lines.len() == 0 {
        seq![]
    } else {
        marked_lines(mark, lines.drop_last()) + seq![mark] + lines.last() + "\n"@
    }
}

fn push_marked_lines(out: &mut Vec<char>, mark: char, text: &str)
    ensures
        final(out)@ == old(out)@ + marked_lines(mark, lines_of(text@)),
{
    let lines = split_lines(&chars_of(text));
    assert(texts(lines@).len() == lines@.len());
    let mut i: usize = 0;
    assert(texts(lines@).take(0) =~= Seq::empty());
    while i < lines.len()
        invariant
            i <= lines.len(),
            texts(lines@) == lines_of(text@),
            out@ == old(out)@ + marked_lines(mark, texts(lines@).take(i as int)),
        decreases lines.len() - i,
    {
        proof {
            let t = texts(lines@).take(i + 1);
            assert(t.drop_last() =~= texts(lines@).take(i as int));
            assert(t.last() == lines@[i as int]@);
        }
        out.push(mark);
        push_all(out, &lines[i]);
        push_str(out, "\n");
        i += 1;
        assert(out@ =~= old(out)@ + marked_lines(mark, texts(lines@).take(i as int)));
    }
    assert(texts(lines@).take(i as int) =~= texts(lines@));
}

/// What the tool that edits a file gives back once the file is written.
pub open spec fn edit_file_text(
    path: Seq<char>,
    old: Seq<char>,
    new: Seq<char>,
    written: Result<(), Seq<char>>,
) -> Seq<char> {
    match written {
        Ok(_) => "Edited "@ + path + "\n"@ + marked_lines('-', lines_of(old)) + marked_lines(
            '+',
            lines_of(new),
        ),
        Err(e) => "Error writing file: "@ + e,
    }
}

/// What the tool that edits a file gives back, from what came of writing the
/// edited content.
pub fn tool_edit_file(path: &str, old: &str, new: &str, written: &Result<(), String>) -> (out: String)
    ensures
        out@ == edit_file_text(path@, old@, new@, unit_res_text(*written)),
{
    match written {
        Ok(_) => {
            let mut out: Vec<char> = Vec::new();
            push_str(&mut out, "Edited ");
            push_str(&mut out, path);
            push_str(&mut out, "\n");
            push_marked_lines(&mut out, '-', old);
            push_marked_lines(&mut out, '+', new);
            assert(out@ =~= edit_file_text(path@, old@, new@, unit_res_text(*written)));
            string_of(&out)
        },
        Err(e) => prefixed("Error writing file: ", e.as_str()),
    }
}

/// The preview of an edit: the diff that shows it, and the new content.
pub open spec fn edit_preview_of(
    path: Seq<char>,
    old: Seq<char>,
    new: Seq<char>,
    read: Result<Seq<char>, Seq<char>>,
) -> Result<(Seq<char>, Seq<char>), Seq<char>> {
    if path.len() == 0 {
        Err("Error: path is required"@)
    } else if old.len() == 0 {
        Err("Error: old text is required"@)
    } else {
        match edit_update_of(path, old, new, read) {
            Ok(updated) => Ok(
                (diff_text(path, "Edited"@, line_diff_hunks(read->Ok_0, updated, 3)), updated),
            ),
            Err(e) => Err(e),
        }
    }
}

/// The texts of a preview.
pub open spec fn preview_text(r: Result<(String, String), String>) -> Result<
    (Seq<char>, Seq<char>),
    Seq<char>,
> {
    match r {
        Ok(p) => Ok((p.0@, p.1@)),
        Err(e) => Err(e@),
    }
}

/// Previews an edit without writing: the diff and the new content.
pub fn preview_edit_file(path: &str, old: &str, new: &str, read: &Result<String, String>) -> (out:
    Result<(String, String), String>)
    ensures
        preview_text(out) == edit_preview_of(path@, old@, new@, res_text(*read)),
{
    if path.is_empty() {
        return Err("Error: path is required".to_owned());
    }
    if old.is_empty() {
        return Err("Error: old text is required".to_owned());
    }
    match read {
        Ok(content) => match apply_edit(path, content.as_str(), old, new) {
            Ok(updated) => {
                let diff = format_diff_with_context(
                    path,
                    "Edited",
                    content.as_str(),
                    updated.as_str(),
                );
                Ok((diff, updated))
            },
            Err(e) => Err(e),
        },
        Err(e) => Err(prefixed("Error reading file: ", e.as_str())),
    }
}

/// What came of writing a file.
#[derive(Debug)]
pub enum WriteOutcome {
    /// The file is written.
    Written,
    /// The directories above the file could not be made.
    DirFailed(String),
    /// The file could not be written.
    WriteFailed(String),
}

/// What came of writing a file, as its text.
pub enum WriteOutcomeView {
    Written,
    DirFailed(Seq<char>),
    WriteFailed(Seq<char>),
}

impl View for WriteOutcome {
    type V = WriteOutcomeView;

    open spec fn view(&self) -> WriteOutcomeView {
        match self {
            WriteOutcome::Written => WriteOutcomeView::Written,
            WriteOutcome::DirFailed(e) => WriteOutcomeView::DirFailed(e@),
            WriteOutcome::WriteFailed(e) => WriteOutcomeView::WriteFailed(e@),
        }
    }
}

/// Whether a write makes a new file: nothing could be read at the path and
/// nothing exists there.
pub open spec fn is_new_file(old_content: Seq<char>, exists: bool) -> bool {
    old_content.len() == 0 && !exists
}

/// What the tool that writes a file gives back: for a new file its lines,
/// each after a `+`; for a file that existed the lines dropped and added.
pub open spec fn write_file_text(
    path: Seq<char>,
    content: Seq<char>,
    old_content: Seq<char>,
    exists: bool,
    outcome: WriteOutcomeView,
) -> Seq<char> {
    match outcome {
        WriteOutcomeView::DirFailed(e) => "Error creating directories: "@ + e,
        WriteOutcomeView::WriteFailed(e) => "Error writing file: "@ + e,
        WriteOutcomeView::Written => if is_new_file(old_content, exists) {
            "Created "@ + path + "\n"@ + marked_lines('+', lines_of(content))
        } else {
            plain_diff_text(path, old_content, content, line_diff(old_content, content))
        },
    }
}

/// What the tool that writes a file gives back, from the content that the
/// file had before, whether anything existed at the path, and what came of
/// the write.
pub fn tool_write_file(
    path: &str,
    content: &str,
    old_content: &str,
    exists: bool,
    outcome: &WriteOutcome,
) -> (out: String)
    ensures
        out@ == write_file_text(path@, content@, old_content@, exists, outcome@),
{
    match outcome {
        WriteOutcome::DirFailed(e) => prefixed("Error creating directories: ", e.as_str()),
        WriteOutcome::WriteFailed(e) => prefixed("Error writing file: ", e.as_str()),
        WriteOutcome::Written => {
            if old_content.is_empty() && !exists {
                let mut out: Vec<char> = Vec::new();
                push_str(&mut out, "Created ");
                push_str(&mut out, path);
                push_str(&mut out, "\n");
                push_marked_lines(&mut out, '+', content);
                assert(out@ =~= "Created "@ + path@ + "\n"@ + marked_lines('+', lines_of(content@)));
                string_of(&out)
            } else {
                format_diff(path, old_content, content)
            }
        },
    }
}

/// The lines of a new file as its preview shows them: a `+`, the line's
/// number in four columns, a bar, the line.
pub open spec fn created_lines(lines: Seq<Seq<char>>) -> Seq<char>
    decreases lines.len(),
{
    if lines.len() == 0 {
        seq![]
    } else {
        created_lines(lines.drop_last()) + seq!['+'] + pad_left(decimal(lines.len()), 4) + "│"@
            + lines.last() + "\n"@
    }
}

/// The preview of a write: the diff that shows it, and the new content.
pub open spec fn write_preview_of(
    path: Seq<char>,
    content: Seq<char>,
    old_content: Seq<char>,
    exists: bool,
) -> Result<(Seq<char>, Seq<char>), Seq<char>> {
    if path.len() == 0 {
        Err("Error: path is required"@)
    } else if is_new_file(old_content, exists) {
        Ok(("Created "@ + path + "\n"@ + created_lines(lines_of(content)), content))
    } else if old_content == content {
        Ok(("No changes to "@ + path, content))
    } else {
        Ok((diff_text(path, "Wrote"@, line_diff_hunks(old_content, content, 3)), content))
    }
}

/// Previews a write without writing: the diff and the new content.
pub fn preview_write_file(path: &str, content: &str, old_content: &str, exists: bool) -> (out: Result<
    (String, String),
    String,
>)
    ensures
        preview_text(out) == write_preview_of(path@, content@, old_content@, exists),
{
    if path.is_empty() {
        return Err("Error: path is required".to_owned());
    }
    let diff = if old_content.is_empty() && !exists {
        let mut out: Vec<char> = Vec::new();
        push_str(&mut out, "Created ");
        push_str(&mut out, path);
        push_str(&mut out, "\n");
        let ghost head = out@;
        let lines = split_lines(&chars_of(content));
        assert(texts(lines@).len() == lines@.len());
        let mut i: usize = 0;
        assert(texts(lines@).take(0) =~= Seq::empty());
        while i < lines.len()
            invariant
                i <= lines.len(),
                out@ == head + created_lines(texts(lines@).take(i as int)),
            decreases lines.len() - i,
        {
            proof {
                let t = texts(lines@).take(i + 1);
                assert(t.drop_last() =~= texts(lines@).take(i as int));
                assert(t.last() == lines@[i as int]@);
            }
            out.push('+');
            push_padded_decimal(&mut out, i as u128 + 1, 4);
            push_str(&mut out, "│");
            push_all(&mut out, &lines[i]);
            push_str(&mut out, "\n");
            i += 1;
            assert(out@ =~= head + created_lines(texts(lines@).take(i as int)));
        }
        assert(texts(lines@).take(i as int) =~= texts(lines@));
        assert(out@ =~= "Created "@ + path@ + "\n"@ + created_lines(lines_of(content@)));
        string_of(&out)
    } else if str_eq(old_content, content) {
        prefixed("No changes to ", path)
    } else {
        format_diff_with_context(path, "Wrote", old_content, content)
    };
    Ok((diff, content.to_owned()))
}

/// What applying a previewed write reports.
pub open spec fn apply_write_text(path: Seq<char>, outcome: WriteOutcomeView) -> Seq<char> {
    match outcome {
        WriteOutcomeView::DirFailed(e) => "Error creating directories: "@ + e,
        WriteOutcomeView::WriteFailed(e) => "Error writing file: "@ + e,
        WriteOutcomeView::Written => "Wrote "@ + path,
    }
}

/// Reports what came of applying a previewed write.
pub fn apply_write(path: &str, outcome: &WriteOutcome) -> (out: String)
    ensures
        out@ == apply_write_text(path@, outcome@),
{
    match outcome {
        WriteOutcome::DirFailed(e) => prefixed("Error creating directories: ", e.as_str()),
        WriteOutcome::WriteFailed(e) => prefixed("Error writing file: ", e.as_str()),
        WriteOutcome::Written => prefixed("Wrote ", path),
    }
}

} // verus!
