//! Line diffs and the way they are shown: a header, then every changed line
//! with its marker and its line number, hunks parted by a line of dots.
//!
//! The diff itself is computed by the `similar` crate.

use vstd::prelude::*;
use crate::lines::{decimal, pad_left, push_padded_decimal};
use crate::text::{push_str, string_of};

verus! {

/// What a line of a diff is to the two texts.
#[derive(Debug, Clone, Copy, PartialEq, Eq, Structural)]
pub enum ChangeTag {
    /// The line stands in both texts.
    Equal,
    /// The line stands in the old text only.
    Delete,
    /// The line stands in the new text only.
    Insert,
}

/// One line of a diff.
#[derive(Debug)]
pub struct DiffLine {
    pub tag: ChangeTag,
    /// The line's position in the old text, counted from 0.
    pub old_index: Option<usize>,
    /// The line's position in the new text, counted from 0.
    pub new_index: Option<usize>,
    /// The line with its line ending.
    pub value: String,
    /// Whether the line has no line ending.
    pub missing_newline: bool,
}

/// A line of a diff as its text.
pub struct DiffLineView {
    pub tag: ChangeTag,
    pub old_index: Option<usize>,
    pub new_index: Option<usize>,
    pub value: Seq<char>,
    pub missing_newline: bool,
}

impl View for DiffLine {
    type V = DiffLineView;

    open spec fn view(&self) -> DiffLineView {
        DiffLineView {
            tag: self.tag,
            old_index: self.old_index,
            new_index: self.new_index,
            value: self.value@,
            missing_newline: self.missing_newline,
        }
    }
}

/// The lines that a vector holds.
pub open spec fn line_views(v: Seq<DiffLine>) -> Seq<DiffLineView> {
    Seq::new(v.len(), |i: int| v[i]@)
}

/// The hunks that a vector holds.
pub open spec fn hunk_views(v: Seq<Vec<DiffLine>>) -> Seq<Seq<DiffLineView>> {
    Seq::new(v.len(), |i: int| line_views(v[i]@))
}

/// The line diff of two texts as `similar` computes it with its default
/// settings: every line of both texts, in order, with its tag.
pub uninterp spec fn line_diff(old: Seq<char>, new: Seq<char>) -> Seq<DiffLineView>;

/// The hunks of the line diff of two texts as `similar` groups them: the
/// changed lines with up to `radius` unchanged lines around them.
pub uninterp spec fn line_diff_hunks(old: Seq<char>, new: Seq<char>, radius: nat) -> Seq<
    Seq<DiffLineView>,
>;

/// Diffs two texts by lines with `similar::TextDiff::from_lines` and lists
/// every change that `TextDiff::iter_all_changes` yields, each with what its
/// accessors `tag`, `old_index`, `new_index`, `value` and `missing_newline`
/// return.
#[verifier::external_body]
pub(crate) fn diff_changes(old: &str, new: &str) -> (out: Vec<DiffLine>)
    ensures
        line_views(out@) == line_diff(old@, new@),
{
    let diff = similar::TextDiff::from_lines(old, new);
    diff.iter_all_changes().map(|c| DiffLine {
        tag: match c.tag() {
            similar::ChangeTag::Equal => ChangeTag::Equal,
            similar::ChangeTag::Delete => ChangeTag::Delete,
            similar::ChangeTag::Insert => ChangeTag::Insert,
        },
        old_index: c.old_index(),
        new_index: c.new_index(),
        value: c.value().to_owned(),
        missing_newline: c.missing_newline(),
    }).collect()
}

/// Diffs two texts by lines with `similar::TextDiff::from_lines`, groups the
/// result with `TextDiff::grouped_ops` and lists, hunk by hunk, every change
/// that `TextDiff::iter_changes` yields for the hunk's operations. The
/// grouping doubles the radius, so the radius has to leave room for that.
#[verifier::external_body]
pub(crate) fn diff_hunks(old: &str, new: &str, radius: usize) -> (out: Vec<Vec<DiffLine>>)
    requires
        radius <= usize::MAX / 2,
    ensures
        hunk_views(out@) == line_diff_hunks(old@, new@, radius as nat),
{
    let diff = similar::TextDiff::from_lines(old, new);
    let line = |c: similar::Change<&str>| DiffLine {
        tag: match c.tag() {
            similar::ChangeTag::Equal => ChangeTag::Equal,
            similar::ChangeTag::Delete => ChangeTag::Delete,
            similar::ChangeTag::Insert => ChangeTag::Insert,
        },
        old_index: c.old_index(),
        new_index: c.new_index(),
        value: c.value().to_owned(),
        missing_newline: c.missing_newline(),
    };
    let hunk = |g: &Vec<similar::DiffOp>| g.iter().flat_map(|op| diff.iter_changes(op)).map(line).collect();
    diff.grouped_ops(radius).iter().map(hunk).collect()
}

/// The marker that a line of a diff is shown with.
pub open spec fn marker(tag: ChangeTag) -> char {
    match tag {
        ChangeTag::Equal => ' ',
        ChangeTag::Delete => '-',
        ChangeTag::Insert => '+',
    }
}

/// The position of an optional index, counted from 1; 1 where there is none.
pub open spec fn one_based(index: Option<usize>) -> nat {
    match index {
        Some(i) => (i + 1) as nat,
        None => 1,
    }
}

/// The line number that a line of a diff is shown with: its place in the old
/// text where it was deleted, else its place in the new text.
pub open spec fn line_number(l: DiffLineView) -> nat {
    match l.tag {
        ChangeTag::Delete => one_based(l.old_index),
        _ => one_based(l.new_index),
    }
}

/// One line of a diff as it is shown: marker, line number in four columns,
/// a bar, the line, and a line feed where the line has none.
pub open spec fn diff_line_text(l: DiffLineView) -> Seq<char> {
    seq![marker(l.tag)] + pad_left(decimal(line_number(l)), 4) + "│"@ + l.value + if l.missing_newline {
        "\n"@
    } else {
        Seq::<char>::empty()
    }
}

/// The lines of one hunk as they are shown.
pub open spec fn hunk_text(h: Seq<DiffLineView>) -> Seq<char>
    decreases h.len(),
{
    if h.len() == 0 {
        seq![]
    } else {
        hunk_text(h.drop_last()) + diff_line_text(h.last())
    }
}

/// The hunks as they are shown, a line of dots between each two.
pub open spec fn hunks_text(hs: Seq<Seq<DiffLineView>>) -> Seq<char>
    decreases hs.len(),
{
    if hs.len() == 0 {
        seq![]
    } else {
        hunks_text(hs.drop_last()) + (if hs.len() > 1 {
            "···\n"@
        } else {
            Seq::<char>::empty()
        }) + hunk_text(hs.last())
    }
}

/// A diff as it is shown: what was done to which file, then the hunks.
pub open spec fn diff_text(path: Seq<char>, action: Seq<char>, hs: Seq<Seq<DiffLineView>>) -> Seq<
    char,
> {
    action + " "@ + path + "\n"@ + hunks_text(hs)
}

fn push_diff_line(out: &mut Vec<char>, l: &DiffLine)
    ensures
        final(out)@ == old(out)@ + diff_line_text(l@),
{
    let m = match l.tag {
        ChangeTag::Equal => ' ',
        ChangeTag::Delete => '-',
        ChangeTag::Insert => '+',
    };
    out.push(m);
    let index = match l.tag {
        ChangeTag::Delete => l.old_index,
        _ => l.new_index,
    };
    let number: u128 = match index {
        Some(i) => i as u128 + 1,
        None => 1,
    };
    push_padded_decimal(out, number, 4);
    push_str(out, "│");
    push_str(out, l.value.as_str());
    if l.missing_newline {
        push_str(out, "\n");
    }
    assert(out@ =~= old(out)@ + diff_line_text(l@));
}

fn push_hunk(out: &mut Vec<char>, h: &Vec<DiffLine>)
    ensures
        final(out)@ == old(out)@ + hunk_text(line_views(h@)),
{
    let mut i: usize = 0;
    assert(line_views(h@).take(0) =~= Seq::empty());
    while i < h.len()
        invariant
            i <= h.len(),
            out@ == old(out)@ + hunk_text(line_views(h@).take(i as int)),
        decreases h.len() - i,
    {
        proof {
            let t = line_views(h@).take(i + 1);
            assert(t.drop_last() =~= line_views(h@).take(i as int));
            assert(t.last() == h@[i as int]@);
        }
        push_diff_line(out, &h[i]);
        i += 1;
        assert(out@ =~= old(out)@ + hunk_text(line_views(h@).take(i as int)));
    }
    assert(line_views(h@).take(i as int) =~= line_views(h@));
}

/// Shows a diff: a header that names the action and the path, then each hunk,
/// with three dots on a line of their own between two hunks.
pub fn format_hunks(path: &str, action: &str, hunks: &Vec<Vec<DiffLine>>) -> (out: String)
    ensures
        out@ == diff_text(path@, action@, hunk_views(hunks@)),
{
    let mut out: Vec<char> = Vec::new();
    push_str(&mut out, action);
    push_str(&mut out, " ");
    push_str(&mut out, path);
    push_str(&mut out, "\n");
    let ghost head = out@;
    assert(head =~= action@ + " "@ + path@ + "\n"@);
    let mut i: usize = 0;
    assert(hunk_views(hunks@).take(0) =~= Seq::empty());
    while i < hunks.len()
        invariant
            i <= hunks.len(),
            out@ == head + hunks_text(hunk_views(hunks@).take(i as int)),
        decreases hunks.len() - i,
    {
        proof {
            let t = hunk_views(hunks@).take(i + 1);
            assert(t.drop_last() =~= hunk_views(hunks@).take(i as int));
            assert(t.last() == line_views(hunks@[i as int]@));
        }
        if i > 0 {
            push_str(&mut out, "···\n");
        }
        push_hunk(&mut out, &hunks[i]);
        i += 1;
        assert(out@ =~= head + hunks_text(hunk_views(hunks@).take(i as int)));
    }
    assert(hunk_views(hunks@).take(i as int) =~= hunk_views(hunks@));
    string_of(&out)
}

/// The diff of two texts, shown with three lines of context around each
/// change.
pub fn format_diff_with_context(path: &str, action: &str, old_content: &str, new_content: &str) -> (out:
    String)
    ensures
        out@ == diff_text(path@, action@, line_diff_hunks(old_content@, new_content@, 3)),
{
    let hunks = diff_hunks(old_content, new_content, 3);
    format_hunks(path, action, &hunks)
}

/// A changed line as the plain diff shows it: `-` or `+`, the line, and a
/// line feed where the line has none. Unchanged lines are not shown.
pub open spec fn plain_line_text(l: DiffLineView) -> Seq<char> {
    match l.tag {
        ChangeTag::Equal => Seq::<char>::empty(),
        _ => seq![marker(l.tag)] + l.value + if l.missing_newline {
            "\n"@
        } else {
            Seq::<char>::empty()
        },
    }
}

/// The changed lines as the plain diff shows them.
pub open spec fn plain_lines_text(ls: Seq<DiffLineView>) -> Seq<char>
    decreases ls.len(),
{
    if ls.len() == 0 {
        seq![]
    } else {
        plain_lines_text(ls.drop_last()) + plain_line_text(ls.last())
    }
}

/// What a write reports of the change it made.
pub open spec fn plain_diff_text(path: Seq<char>, old: Seq<char>, new: Seq<char>, ls: Seq<
    DiffLineView,
>) -> Seq<char> {
    if old == new {
        "No changes to "@ + path
    } else {
        "Wrote "@ + path + "\n"@ + plain_lines_text(ls)
    }
}

/// Shows the changed lines of a diff below a header, or says that nothing
/// changed where the two texts are the same.
pub fn format_changes(path: &str, old: &str, new: &str, changes: &Vec<DiffLine>) -> (out: String)
    ensures
        out@ == plain_diff_text(path@, old@, new@, line_views(changes@)),
{
    let mut out: Vec<char> = Vec::new();
    if crate::text::str_eq(old, new) {
        push_str(&mut out, "No changes to ");
        push_str(&mut out, path);
        assert(out@ =~= "No changes to "@ + path@);
        return string_of(&out);
    }
    push_str(&mut out, "Wrote ");
    push_str(&mut out, path);
    push_str(&mut out, "\n");
    let ghost head = out@;
    assert(head =~= "Wrote "@ + path@ + "\n"@);
    let mut i: usize = 0;
    assert(line_views(changes@).take(0) =~= Seq::empty());
    while i < changes.len()
        invariant
            i <= changes.len(),
            out@ == head + plain_lines_text(line_views(changes@).take(i as int)),
        decreases changes.len() - i,
    {
        proof {
            let t = line_views(changes@).take(i + 1);
            assert(t.drop_last() =~= line_views(changes@).take(i as int));
            assert(t.last() == changes@[i as int]@);
        }
        let l = &changes[i];
        match l.tag {
            ChangeTag::Equal => {},
            ChangeTag::Delete => {
                out.push('-');
                push_str(&mut out, l.value.as_str());
                if l.missing_newline {
                    push_str(&mut out, "\n");
                }
            },
            ChangeTag::Insert => {
                out.push('+');
                push_str(&mut out, l.value.as_str());
                if l.missing_newline {
                    push_str(&mut out, "\n");
                }
            },
        }
        i += 1;
        assert(out@ =~= head + plain_lines_text(line_views(changes@).take(i as int)));
    }
    assert(line_views(changes@).take(i as int) =~= line_views(changes@));
    string_of(&out)
}

/// What a write reports: the lines that the new text drops and adds.
pub fn format_diff(path: &str, old: &str, new: &str) -> (out: String)
    ensures
        out@ == plain_diff_text(path@, old@, new@, line_diff(old@, new@)),
{
    let changes = diff_changes(old, new);
    format_changes(path, old, new, &changes)
}

} // verus!
