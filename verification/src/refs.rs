//! File references in the user's input: a word `@path` whose file exists is
//! shown as `` `path` ``, and the file is attached to what the model is sent.

use vstd::prelude::*;
use crate::lines::{
    count_lines, is_space, lines_of, position_of, position_of_is_first, space_char, split_words,
    texts, token_end, trim, trimmed, words_of,
};
use crate::sandbox::opt_text;
use crate::text::{chars_of, push_all, push_str, slice_of, string_of, vec_eq};

verus! {

/// What was found at a path: the content of the file there, or nothing where
/// no file is there or it cannot be read as text.
#[derive(Debug)]
pub struct FileProbe {
    pub path: String,
    pub content: Option<String>,
}

/// A file attached to a message, with the number of its lines.
#[derive(Debug)]
pub struct Attachment {
    pub path: String,
    pub lines: usize,
}

/// The input of the user with its file references expanded.
#[derive(Debug)]
pub struct ExpandedInput {
    /// What the model is sent.
    pub text: String,
    /// The files attached, each once, in the order of their first mention.
    pub files_read: Vec<Attachment>,
}

/// The paths that were probed.
pub open spec fn probe_paths(probes: Seq<FileProbe>) -> Seq<Seq<char>> {
    Seq::new(probes.len(), |i: int| probes[i].path@)
}

/// The content found at `path`: that of the first probe of the path.
pub open spec fn found(probes: Seq<FileProbe>, path: Seq<char>) -> Option<Seq<char>> {
    let i = position_of(probe_paths(probes), path);
    if 0 <= i < probes.len() {
        opt_text(probes[i].content)
    } else {
        None
    }
}

/// Whether a word has the form of a file reference: `@` and a path.
pub open spec fn is_reference(word: Seq<char>) -> bool {
    word.len() > 1 && word[0] == '@'
}

/// Whether a word refers to a file that exists.
pub open spec fn refers_to_file(word: Seq<char>, probes: Seq<FileProbe>) -> bool {
    is_reference(word) && found(probes, word.skip(1)) is Some
}

/// The paths of the files that the words refer to, each once, in the order of
/// their first mention.
pub open spec fn attached(words: Seq<Seq<char>>, probes: Seq<FileProbe>) -> Seq<Seq<char>>
    decreases words.len(),
{
    if words.len() == 0 {
        seq![]
    } else {
        let before = attached(words.drop_last(), probes);
        let w = words.last();
        if refers_to_file(w, probes) && !before.contains(w.skip(1)) {
            before.push(w.skip(1))
        } else {
            before
        }
    }
}

/// Every file that some word refers to is attached exactly once, and nothing
/// else is attached.
pub proof fn attached_exactly_once(words: Seq<Seq<char>>, probes: Seq<FileProbe>)
    ensures
        attached(words, probes).no_duplicates(),
        forall|p: Seq<char>|
            attached(words, probes).contains(p) <==> exists|k: int|
                0 <= k < words.len() && refers_to_file(#[trigger] words[k], probes) && words[k].skip(
                    1,
                ) == p,
    decreases words.len(),
{
    if words.len() > 0 {
        let rest = words.drop_last();
        let before = attached(rest, probes);
        let now = attached(words, probes);
        let w = words.last();
        attached_exactly_once(rest, probes);
        assert forall|p: Seq<char>| now.contains(p) implies exists|k: int|
            0 <= k < words.len() && refers_to_file(#[trigger] words[k], probes) && words[k].skip(1)
                == p by {
            let i = choose|i: int| 0 <= i < now.len() && now[i] == p;
            if i < before.len() {
                assert(before[i] == p);
                assert(before.contains(p));
                let k = choose|k: int|
                    0 <= k < rest.len() && refers_to_file(#[trigger] rest[k], probes) && rest[k].skip(
                        1,
                    ) == p;
                assert(words[k] == rest[k]);
            } else {
                assert(words[words.len() - 1] == w);
            }
        }
        assert forall|p: Seq<char>|
            (exists|k: int|
                0 <= k < words.len() && refers_to_file(#[trigger] words[k], probes) && words[k].skip(
                    1,
                ) == p) implies now.contains(p) by {
            let k = choose|k: int|
                0 <= k < words.len() && refers_to_file(#[trigger] words[k], probes) && words[k].skip(1)
                    == p;
            if k < rest.len() {
                assert(rest[k] == words[k]);
                assert(before.contains(p));
                let i = choose|i: int| 0 <= i < before.len() && before[i] == p;
                assert(now[i] == p);
            } else {
                assert(words[k] == w);
                if before.contains(p) {
                    let i = choose|i: int| 0 <= i < before.len() && before[i] == p;
                    assert(now[i] == p);
                } else {
                    assert(now[now.len() - 1] == p);
                }
            }
        }
        if now != before {
            assert forall|i: int, j: int| 0 <= i < now.len() && 0 <= j < now.len() && i != j implies now[i]
                != now[j] by {
                if i == before.len() {
                    assert(before[j] == now[j]);
                } else if j == before.len() {
                    assert(before[i] == now[i]);
                }
            }
        }
    }
}

/// A word as the transcript shows it: the path of a file that exists between
/// backticks, any other word as it is.
pub open spec fn shown_word(word: Seq<char>, probes: Seq<FileProbe>) -> Seq<char> {
    if refers_to_file(word, probes) {
        "`"@ + word.skip(1) + "`"@
    } else {
        word
    }
}

/// The input from position `i` on, with every word shown as `shown_word`
/// says and the white space kept.
pub open spec fn rewritten_from(s: Seq<char>, i: int, probes: Seq<FileProbe>) -> Seq<char>
    decreases s.len() - i,
{
    if i < 0 || i >= s.len() {
        seq![]
    } else if is_space(s[i]) {
        seq![s[i]] + rewritten_from(s, i + 1, probes)
    } else {
        let e = token_end(s, i);
        if i < e <= s.len() {
            shown_word(s.subrange(i, e), probes) + rewritten_from(s, e, probes)
        } else {
            seq![]
        }
    }
}

/// The block that attaches a file.
pub open spec fn file_block(path: Seq<char>, content: Seq<char>) -> Seq<char> {
    "\n\n<file path=\""@ + path + "\">\n"@ + trim(content) + "\n</file>"@
}

/// The blocks of the attached files, in order.
pub open spec fn file_blocks(paths: Seq<Seq<char>>, probes: Seq<FileProbe>) -> Seq<char>
    decreases paths.len(),
{
    if paths.len() == 0 {
        seq![]
    } else {
        file_blocks(paths.drop_last(), probes) + file_block(
            paths.last(),
            crate::json::text_or(found(probes, paths.last()), Seq::empty()),
        )
    }
}

/// What the model is sent for an input: the input with its references
/// rewritten, then one block for each attached file.
pub open spec fn expanded_text(input: Seq<char>, probes: Seq<FileProbe>) -> Seq<char> {
    rewritten_from(input, 0, probes) + file_blocks(attached(words_of(input), probes), probes)
}

/// The attachments that a vector holds, each as its path and its number of
/// lines.
pub open spec fn attachment_views(v: Seq<Attachment>) -> Seq<(Seq<char>, nat)> {
    Seq::new(v.len(), |i: int| (v[i].path@, v[i].lines as nat))
}

/// The attachments for the given paths.
pub open spec fn attachments_for(paths: Seq<Seq<char>>, probes: Seq<FileProbe>) -> Seq<
    (Seq<char>, nat),
> {
    Seq::new(
        paths.len(),
        |i: int|
            (paths[i], lines_of(crate::json::text_or(found(probes, paths[i]), Seq::empty())).len()),
    )
}

fn probe_of(probes: &Vec<FileProbe>, path: &Vec<char>) -> (out: Option<usize>)
    ensures
        match out {
            Some(i) => i < probes.len() && probes[i as int].content is Some && found(probes@, path@)
                == Some(probes[i as int].content->0@),
            None => found(probes@, path@) is None,
        },
{
    let mut i: usize = 0;
    while i < probes.len()
        invariant
            i <= probes.len(),
            forall|j: int| 0 <= j < i ==> probe_paths(probes@)[j] != path@,
        decreases probes.len() - i,
    {
        let p = chars_of(probes[i].path.as_str());
        if vec_eq(&p, path) {
            proof {
                position_of_is_first(probe_paths(probes@), path@);
                assert(probe_paths(probes@)[i as int] == path@);
            }
            return match &probes[i].content {
                Some(_) => Some(i),
                None => None,
            };
        }
        i += 1;
    }
    proof {
        position_of_is_first(probe_paths(probes@), path@);
    }
    None
}

fn holds_path(list: &Vec<Vec<char>>, path: &Vec<char>) -> (is: bool)
    ensures
        is == texts(list@).contains(path@),
{
    let mut i: usize = 0;
    while i < list.len()
        invariant
            i <= list.len(),
            forall|j: int| 0 <= j < i ==> texts(list@)[j] != path@,
        decreases list.len() - i,
    {
        if vec_eq(&list[i], path) {
            assert(texts(list@)[i as int] == path@);
            return true;
        }
        i += 1;
    }
    false
}

fn word_target(word: &Vec<char>, probes: &Vec<FileProbe>) -> (out: Option<(Vec<char>, usize)>)
    ensures
        match out {
            Some(t) => refers_to_file(word@, probes@) && (t.0)@ == word@.skip(1) && t.1
                < probes.len() && probes[t.1 as int].content is Some && found(
                probes@,
                word@.skip(1),
            ) == Some(probes[t.1 as int].content->0@),
            None => !refers_to_file(word@, probes@),
        },
{
    if word.len() > 1 && word[0] == '@' {
        let path = slice_of(word, 1, word.len());
        assert(path@ =~= word@.skip(1));
        match probe_of(probes, &path) {
            Some(i) => Some((path, i)),
            None => None,
        }
    } else {
        None
    }
}

/// What follows the `@` of each of the words that have the form of a
/// reference, in order.
pub open spec fn reference_paths(words: Seq<Seq<char>>) -> Seq<Seq<char>>
    decreases words.len(),
{
    if words.len() == 0 {
        seq![]
    } else if is_reference(words.last()) {
        reference_paths(words.drop_last()).push(words.last().skip(1))
    } else {
        reference_paths(words.drop_last())
    }
}

/// The paths that the input may refer to: what follows the `@` of each word
/// that has the form of a reference.
pub fn file_ref_paths(input: &str) -> (out: Vec<String>)
    ensures
        crate::lines::strs(out@) == reference_paths(words_of(input@)),
{
    let words = split_words(&chars_of(input));
    assert(texts(words@).len() == words@.len());
    let mut out: Vec<String> = Vec::new();
    let mut k: usize = 0;
    assert(texts(words@).take(0) =~= Seq::empty());
    assert(crate::lines::strs(out@) =~= Seq::empty());
    while k < words.len()
        invariant
            k <= words.len(),
            texts(words@) == words_of(input@),
            crate::lines::strs(out@) == reference_paths(texts(words@).take(k as int)),
        decreases words.len() - k,
    {
        proof {
            let t = texts(words@).take(k + 1);
            assert(t.drop_last() =~= texts(words@).take(k as int));
            assert(t.last() == words@[k as int]@);
        }
        if words[k].len() > 1 && words[k][0] == '@' {
            let path = slice_of(&words[k], 1, words[k].len());
            assert(path@ =~= words@[k as int]@.skip(1));
            let s = string_of(&path);
            assert(crate::lines::strs(out@.push(s)) =~= crate::lines::strs(out@).push(s@));
            out.push(s);
        }
        k += 1;
    }
    assert(texts(words@).take(k as int) =~= texts(words@));
    out
}

/// Expands the file references of an input. `probes` says what was found at
/// the paths that the input may refer to; a path that was not probed counts
/// as no file.
pub fn expand_file_refs(input: &str, probes: &Vec<FileProbe>) -> (out: ExpandedInput)
    ensures
        out.text@ == expanded_text(input@, probes@),
        attachment_views(out.files_read@) == attachments_for(
            attached(words_of(input@), probes@),
            probes@,
        ),
        attached(words_of(input@), probes@).no_duplicates(),
        forall|p: Seq<char>|
            attached(words_of(input@), probes@).contains(p) <==> exists|k: int|
                0 <= k < words_of(input@).len() && refers_to_file(
                    #[trigger] words_of(input@)[k],
                    probes@,
                ) && words_of(input@)[k].skip(1) == p,
{
    let s = chars_of(input);
    let words = split_words(&s);
    assert(texts(words@).len() == words@.len());
    proof {
        attached_exactly_once(words_of(input@), probes@);
    }
    // The files to attach.
    let mut paths: Vec<Vec<char>> = Vec::new();
    let mut blocks: Vec<char> = Vec::new();
    let mut files_read: Vec<Attachment> = Vec::new();
    let mut k: usize = 0;
    assert(texts(words@).take(0) =~= Seq::empty());
    assert(texts(paths@) =~= Seq::empty());
    assert(attachment_views(files_read@) =~= attachments_for(texts(paths@), probes@));
    while k < words.len()
        invariant
            k <= words.len(),
            texts(words@) == words_of(input@),
            texts(paths@) == attached(texts(words@).take(k as int), probes@),
            blocks@ == file_blocks(texts(paths@), probes@),
            files_read.len() == paths.len(),
            attachment_views(files_read@) == attachments_for(texts(paths@), probes@),
        decreases words.len() - k,
    {
        proof {
            let t = texts(words@).take(k + 1);
            assert(t.drop_last() =~= texts(words@).take(k as int));
            assert(t.last() == words@[k as int]@);
        }
        match word_target(&words[k], probes) {
            Some((path, i)) => {
                if !holds_path(&paths, &path) {
                    let content = match &probes[i].content {
                        Some(c) => chars_of(c.as_str()),
                        None => Vec::new(),
                    };
                    let ghost old_paths = texts(paths@);
                    let ghost old_files = attachment_views(files_read@);
                    proof {
                        assert(texts(paths@.push(path)) =~= old_paths.push(path@));
                        assert(old_paths.push(path@).drop_last() =~= old_paths);
                    }
                    push_str(&mut blocks, "\n\n<file path=\"");
                    push_all(&mut blocks, &path);
                    push_str(&mut blocks, "\">\n");
                    let body = trimmed(&content);
                    push_all(&mut blocks, &body);
                    push_str(&mut blocks, "\n</file>");
                    let lines = count_lines(&content);
                    let a = Attachment { path: string_of(&path), lines };
                    files_read.push(a);
                    paths.push(path);
                    proof {
                        assert(blocks@ =~= file_blocks(old_paths, probes@) + file_block(
                            path@,
                            content@,
                        ));
                        let now = attachment_views(files_read@);
                        let want = attachments_for(texts(paths@), probes@);
                        assert(now.len() == want.len());
                        assert forall|j: int| 0 <= j < now.len() implies now[j] == want[j] by {
                            if j < old_files.len() {
                                assert(now[j] == old_files[j]);
                                assert(old_files[j] == attachments_for(old_paths, probes@)[j]);
                            }
                        }
                        assert(now =~= want);
                    }
                }
            },
            None => {},
        }
        k += 1;
    }
    assert(texts(words@).take(k as int) =~= texts(words@));
    // The input with its references rewritten.
    let mut text: Vec<char> = Vec::new();
    let mut i: usize = 0;
    while i < s.len()
        invariant
            i <= s.len(),
            s@ == input@,
            rewritten_from(s@, 0, probes@) == text@ + rewritten_from(s@, i as int, probes@),
        decreases s.len() - i,
    {
        if space_char(s[i]) {
            text.push(s[i]);
            i += 1;
            assert(text@ + rewritten_from(s@, i as int, probes@) =~= rewritten_from(s@, 0, probes@));
        } else {
            let start = i;
            while i < s.len() && !space_char(s[i])
                invariant
                    start <= i <= s.len(),
                    start < s.len(),
                    !is_space(s@[start as int]),
                    token_end(s@, start as int) == token_end(s@, i as int),
                decreases s.len() - i,
            {
                i += 1;
            }
            assert(token_end(s@, i as int) == i);
            let word = slice_of(&s, start, i);
            match word_target(&word, probes) {
                Some((path, _)) => {
                    push_str(&mut text, "`");
                    push_all(&mut text, &path);
                    push_str(&mut text, "`");
                },
                None => {
                    push_all(&mut text, &word);
                },
            }
            assert(text@ + rewritten_from(s@, i as int, probes@) =~= rewritten_from(s@, 0, probes@));
        }
    }
    assert(text@ + rewritten_from(s@, i as int, probes@) =~= text@);
    push_all(&mut text, &blocks);
    ExpandedInput { text: string_of(&text), files_read }
}

} // verus!
