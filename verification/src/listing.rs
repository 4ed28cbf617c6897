//! What the tools that list and search give back.

use vstd::prelude::*;
use crate::fileops::prefixed;
use crate::lines::{join, join_strings, strs, texts};
use crate::paths::{components, path_components};
use crate::sorting::{sort_strings, sorted};
use crate::text::{
    chars_of, contains_text, ends_with, find_last, has_suffix, has_text, last_index_of, push_str,
    slice_of, string_of, vec_eq,
};

verus! {

/// An entry of a directory.
#[derive(Debug)]
pub struct DirEntry {
    pub name: String,
    pub is_dir: bool,
}

/// An entry as a listing shows it: a directory with a slash after its name.
pub open spec fn shown_entry(e: DirEntry) -> Seq<char> {
    if e.is_dir {
        e.name@ + "/"@
    } else {
        e.name@
    }
}

/// The entries as a listing shows them, in the order given.
pub open spec fn shown_entries(entries: Seq<DirEntry>) -> Seq<Seq<char>> {
    Seq::new(entries.len(), |i: int| shown_entry(entries[i]))
}

/// Whether `out` lists the entries: their names, sorted, one on a line.
pub open spec fn lists(out: Seq<char>, entries: Seq<DirEntry>) -> bool {
    exists|names: Seq<Seq<char>>|
        sorted(names) && names.to_multiset() == shown_entries(entries).to_multiset() && out
            == #[trigger] join(names, "\n"@)
}

/// What the tool that lists a directory gives back: the names of the entries
/// in the order of strings, one on a line, each directory with a slash after
/// its name; the error where the directory cannot be read.
pub fn tool_list_dir(listing: &Result<Vec<DirEntry>, String>) -> (out: String)
    ensures
        match listing {
            Ok(entries) => lists(out@, entries@),
            Err(e) => out@ == "Error listing directory: "@ + e@,
        },
{
    match listing {
        Err(e) => prefixed("Error listing directory: ", e.as_str()),
        Ok(entries) => {
            let mut items: Vec<String> = Vec::new();
            let mut i: usize = 0;
            while i < entries.len()
                invariant
                    i <= entries.len(),
                    items.len() == i,
                    forall|j: int| 0 <= j < i ==> items@[j]@ == shown_entry(entries@[j]),
                decreases entries.len() - i,
            {
                let item = if entries[i].is_dir {
                    let mut v = chars_of(entries[i].name.as_str());
                    v.push('/');
                    proof {
                        reveal_strlit("/");
                        assert(v@ =~= entries@[i as int].name@ + "/"@);
                    }
                    string_of(&v)
                } else {
                    entries[i].name.clone()
                };
                items.push(item);
                i += 1;
            }
            assert(strs(items@) =~= shown_entries(entries@));
            sort_strings(&mut items);
            let out = join_strings(&items, "\n");
            assert(lists(out@, entries@)) by {
                assert(out@ == join(strs(items@), "\n"@));
            }
            out
        },
    }
}

/// The name of the file that a path ends in: its last component, unless that
/// is the root, `.` or `..`; empty where the path ends in no name.
pub open spec fn file_name_of(path: Seq<char>) -> Seq<char> {
    let c = components(path);
    if c.len() == 0 || c.last() == seq!['/'] || c.last() == seq!['.'] || c.last() == seq!['.', '.'] {
        Seq::empty()
    } else {
        c.last()
    }
}

/// Computes `file_name_of`.
pub fn file_name(path: &str) -> (out: String)
    ensures
        out@ == file_name_of(path@),
{
    let c = path_components(&chars_of(path));
    assert(texts(c@).len() == c@.len());
    if c.len() == 0 {
        return String::new();
    }
    let last = &c[c.len() - 1];
    assert(texts(c@).last() == last@);
    let root = vec!['/'];
    let dot = vec!['.'];
    let dots = vec!['.', '.'];
    assert(root@ =~= seq!['/'] && dot@ =~= seq!['.'] && dots@ =~= seq!['.', '.']);
    if vec_eq(last, &root) || vec_eq(last, &dot) || vec_eq(last, &dots) {
        String::new()
    } else {
        string_of(last)
    }
}

/// Whether a search passes over an entry: its name begins with a dot.
pub fn hidden_entry(name: &str) -> (out: bool)
    ensures
        out == (name@.len() > 0 && name@[0] == '.'),
{
    let n = chars_of(name);
    n.len() > 0 && n[0] == '.'
}

/// The part of a pattern for the name of the file: what follows its last
/// slash.
pub open spec fn name_pattern(pattern: Seq<char>) -> Seq<char> {
    pattern.subrange(last_index_of(pattern, '/', pattern.len() as int) + 1, pattern.len() as int)
}

/// The part of a pattern for the directory: what stands before its last
/// slash, if it has one.
pub open spec fn dir_pattern(pattern: Seq<char>) -> Option<Seq<char>> {
    let at = last_index_of(pattern, '/', pattern.len() as int);
    if at >= 0 {
        Some(pattern.subrange(0, at))
    } else {
        None
    }
}

/// Whether the directory part of a pattern lets a path through. A pattern
/// without a directory, or with one that is empty or ends in `**`, lets every
/// path through; any other only a path that holds the directory and a slash.
pub open spec fn dir_allows(path: Seq<char>, pattern: Seq<char>) -> bool {
    match dir_pattern(pattern) {
        Some(dir) => dir.len() == 0 || ends_with(dir, "**"@) || contains_text(path, dir + "/"@),
        None => true,
    }
}

/// Decides `dir_allows`.
pub fn directory_allows(path: &str, pattern: &str) -> (out: bool)
    ensures
        out == dir_allows(path@, pattern@),
{
    let p = chars_of(pattern);
    match find_last(&p, '/', p.len()) {
        None => true,
        Some(at) => {
            let dir = slice_of(&p, 0, at);
            if dir.len() == 0 || has_suffix(&dir, &chars_of("**")) {
                true
            } else {
                let mut needle = slice_of(&p, 0, at);
                push_str(&mut needle, "/");
                has_text(&chars_of(path), &needle)
            }
        },
    }
}

/// Computes `name_pattern`.
pub fn file_pattern(pattern: &str) -> (out: String)
    ensures
        out@ == name_pattern(pattern@),
{
    let p = chars_of(pattern);
    let from = match find_last(&p, '/', p.len()) {
        Some(at) => at + 1,
        None => 0,
    };
    string_of(&slice_of(&p, from, p.len()))
}

/// Whether a name matches a glob pattern, as the `glob` crate decides it; a
/// pattern that the crate refuses matches nothing.
pub uninterp spec fn glob_matches(name: Seq<char>, pattern: Seq<char>) -> bool;

/// Compiles the pattern with `glob::Pattern::new` and matches the name
/// against it with `Pattern::matches`; `false` where the pattern does not
/// compile.
#[verifier::external_body]
pub(crate) fn match_glob(name: &str, pattern: &str) -> (out: bool)
    ensures
        out == glob_matches(name@, pattern@),
{
    glob::Pattern::new(pattern).map(|p| p.matches(name)).unwrap_or(false)
}

/// Whether a path matches a search pattern, given whether the name of its
/// file matches the name part of the pattern.
pub fn pattern_verdict(path: &str, pattern: &str, name_matches: bool) -> (out: bool)
    ensures
        out == (dir_allows(path@, pattern@) && name_matches),
{
    directory_allows(path, pattern) && name_matches
}

/// Whether a path matches a search pattern: the directory part of the
/// pattern lets it through, and the name of its file matches the name part.
pub fn matches_pattern(path: &str, pattern: &str) -> (out: bool)
    ensures
        out == (dir_allows(path@, pattern@) && glob_matches(
            file_name_of(path@),
            name_pattern(pattern@),
        )),
{
    let name = file_name(path);
    let fp = file_pattern(pattern);
    let hit = match_glob(name.as_str(), fp.as_str());
    pattern_verdict(path, pattern, hit)
}

/// What the tool that searches for files gives back: the paths found, one on
/// a line.
pub fn tool_search_files(found: &Vec<String>) -> (out: String)
    ensures
        out@ == if found@.len() == 0 {
            "No files found"@
        } else {
            join(strs(found@), "\n"@)
        },
{
    if found.len() == 0 {
        "No files found".to_owned()
    } else {
        join_strings(found, "\n")
    }
}

} // verus!
