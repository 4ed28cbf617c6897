//! Paths as texts: joining, components, and prefixes by whole components.
//!
//! A path is read as on Unix: `/` separates its components, a leading `/` is
//! the root, and `.` counts only where a relative path begins with it.

use vstd::prelude::*;
use crate::lines::texts;
use crate::text::{push_all, slice_of, vec_eq};

verus! {

/// `base` with the path `rel` adjoined: an absolute `rel` replaces `base`,
/// and a separator is put between the two where `base` does not end in one.
pub open spec fn join_path(base: Seq<char>, rel: Seq<char>) -> Seq<char> {
    if rel.len() > 0 && rel[0] == '/' {
        rel
    } else if base.len() == 0 || base.last() == '/' {
        base + rel
    } else {
        base + seq!['/'] + rel
    }
}

/// Computes `join_path`.
pub fn joined(base: &Vec<char>, rel: &Vec<char>) -> (out: Vec<char>)
    ensures
        out@ == join_path(base@, rel@),
{
    let mut out: Vec<char> = Vec::new();
    if rel.len() > 0 && rel[0] == '/' {
        push_all(&mut out, rel);
        assert(out@ =~= rel@);
    } else if base.len() == 0 || base[base.len() - 1] == '/' {
        push_all(&mut out, base);
        push_all(&mut out, rel);
        assert(out@ =~= base@ + rel@);
    } else {
        push_all(&mut out, base);
        out.push('/');
        push_all(&mut out, rel);
        assert(out@ =~= base@ + seq!['/'] + rel@);
    }
    out
}

/// The end of the run of characters other than `/` that holds position `i`.
pub open spec fn segment_end(s: Seq<char>, i: int) -> int
    decreases s.len() - i,
{
    if i < 0 || i >= s.len() || s[i] == '/' {
        i
    } else {
        segment_end(s, i + 1)
    }
}

/// The maximal runs of characters other than `/` in `s`, from position `i` on.
pub open spec fn segments_from(s: Seq<char>, i: int) -> Seq<Seq<char>>
    decreases s.len() - i,
{
    if i < 0 || i >= s.len() {
        seq![]
    } else if s[i] == '/' {
        segments_from(s, i + 1)
    } else {
        let e = segment_end(s, i);
        if i < e <= s.len() {
            seq![s.subrange(i, e)] + segments_from(s, e)
        } else {
            seq![]
        }
    }
}

/// What stands between the separators of a path, empty pieces left out.
pub open spec fn segments(s: Seq<char>) -> Seq<Seq<char>> {
    segments_from(s, 0)
}

/// The segments without those that are a single dot.
pub open spec fn without_dots(segs: Seq<Seq<char>>) -> Seq<Seq<char>>
    decreases segs.len(),
{
    if segs.len() == 0 {
        seq![]
    } else if segs.last() == seq!['.'] {
        without_dots(segs.drop_last())
    } else {
        without_dots(segs.drop_last()).push(segs.last())
    }
}

/// What a path begins with besides its named components: the root `/` of an
/// absolute path, or the `.` that a relative path starts from.
pub open spec fn path_head(p: Seq<char>) -> Seq<Seq<char>> {
    if p.len() > 0 && p[0] == '/' {
        seq![seq!['/']]
    } else if segments(p).len() > 0 && segments(p)[0] == seq!['.'] {
        seq![seq!['.']]
    } else {
        seq![]
    }
}

/// The components of a path. Repeated separators, a separator at the end and
/// a `.` in the middle of the path do not count.
pub open spec fn components(p: Seq<char>) -> Seq<Seq<char>> {
    path_head(p) + without_dots(segments(p))
}

/// Whether the path `p` begins with the path `base`, whole components
/// compared.
pub open spec fn path_starts_with(p: Seq<char>, base: Seq<char>) -> bool {
    components(base).is_prefix_of(components(p))
}

/// Computes `segments`.
pub fn split_segments(s: &Vec<char>) -> (out: Vec<Vec<char>>)
    ensures
        texts(out@) == segments(s@),
{
    let mut out: Vec<Vec<char>> = Vec::new();
    let mut i: usize = 0;
    while i < s.len()
        invariant
            i <= s.len(),
            segments(s@) == texts(out@) + segments_from(s@, i as int),
        decreases s.len() - i,
    {
        if s[i] == '/' {
            i += 1;
        } else {
            let start = i;
            while i < s.len() && s[i] != '/'
                invariant
                    start <= i <= s.len(),
                    start < s.len(),
                    s@[start as int] != '/',
                    segment_end(s@, start as int) == segment_end(s@, i as int),
                decreases s.len() - i,
            {
                i += 1;
            }
            let piece = slice_of(s, start, i);
            proof {
                assert(segment_end(s@, i as int) == i);
                assert(i > start);
                assert(texts(out@.push(piece)) =~= texts(out@) + seq![piece@]);
                assert(segments_from(s@, start as int) == seq![piece@] + segments_from(
                    s@,
                    i as int,
                ));
            }
            out.push(piece);
            assert(texts(out@) + segments_from(s@, i as int) =~= segments(s@));
        }
    }
    assert(texts(out@) + segments_from(s@, i as int) =~= texts(out@));
    out
}

fn is_dot(seg: &Vec<char>) -> (b: bool)
    ensures
        b == (seg@ == seq!['.']),
{
    if seg.len() == 1 && seg[0] == '.' {
        assert(seg@ =~= seq!['.']);
        true
    } else {
        proof {
            if seg@ == seq!['.'] {
                assert(seg@.len() == 1);
                assert(seg@[0] == '.');
            }
        }
        false
    }
}

/// Computes `components`.
pub fn path_components(p: &Vec<char>) -> (out: Vec<Vec<char>>)
    ensures
        texts(out@) == components(p@),
{
    let segs = split_segments(p);
    assert(texts(segs@).len() == segs@.len());
    let mut out: Vec<Vec<char>> = Vec::new();
    if p.len() > 0 && p[0] == '/' {
        let mut root: Vec<char> = Vec::new();
        root.push('/');
        assert(root@ =~= seq!['/']);
        out.push(root);
    } else if segs.len() > 0 && is_dot(&segs[0]) {
        let mut dot: Vec<char> = Vec::new();
        dot.push('.');
        assert(dot@ =~= seq!['.']);
        out.push(dot);
    }
    assert(texts(out@) =~= path_head(p@)) by {
        assert(texts(segs@)[0] == segs@[0]@ || segs@.len() == 0);
    }
    let mut i: usize = 0;
    assert(texts(segs@).take(0) =~= Seq::<Seq<char>>::empty());
    while i < segs.len()
        invariant
            i <= segs.len(),
            texts(segs@) == segments(p@),
            texts(out@) == path_head(p@) + without_dots(texts(segs@).take(i as int)),
        decreases segs.len() - i,
    {
        proof {
            let t = texts(segs@).take(i + 1);
            assert(t.drop_last() =~= texts(segs@).take(i as int));
            assert(t.last() == segs@[i as int]@);
        }
        if !is_dot(&segs[i]) {
            let piece = slice_of(&segs[i], 0, segs[i].len());
            assert(piece@ =~= segs@[i as int]@);
            proof {
                assert(texts(out@.push(piece)) =~= texts(out@).push(piece@));
            }
            out.push(piece);
        }
        i += 1;
        assert(texts(out@) =~= path_head(p@) + without_dots(texts(segs@).take(i as int)));
    }
    assert(texts(segs@).take(i as int) =~= texts(segs@));
    out
}

/// Whether the first list of components is a prefix of the second.
pub fn components_prefix(a: &Vec<Vec<char>>, b: &Vec<Vec<char>>) -> (is: bool)
    ensures
        is == texts(a@).is_prefix_of(texts(b@)),
{
    assert(texts(a@).len() == a@.len() && texts(b@).len() == b@.len());
    if a.len() > b.len() {
        return false;
    }
    let mut i: usize = 0;
    while i < a.len()
        invariant
            i <= a.len() <= b.len(),
            forall|j: int| 0 <= j < i ==> a@[j]@ == b@[j]@,
        decreases a.len() - i,
    {
        if !vec_eq(&a[i], &b[i]) {
            proof {
                if texts(a@).is_prefix_of(texts(b@)) {
                    assert(texts(b@).subrange(0, texts(a@).len() as int)[i as int] == texts(
                        a@,
                    )[i as int]);
                }
            }
            return false;
        }
        i += 1;
    }
    assert(texts(a@) =~= texts(b@).subrange(0, texts(a@).len() as int));
    true
}

/// Decides `path_starts_with`.
pub fn starts_with_path(p: &Vec<char>, base: &Vec<char>) -> (is: bool)
    ensures
        is == path_starts_with(p@, base@),
{
    let pc = path_components(p);
    let bc = path_components(base);
    components_prefix(&bc, &pc)
}

} // verus!
