//! Node paths of the coordination service: their segments and the paths of their levels.

use vstd::prelude::*;
use vstd::string::{StrSliceExecFns, StringExecFns};
use crate::text::strs_view;

verus! {

/// The character that separates the segments of a path.
pub const SEPARATOR: char = '/';

/// Length of the longest prefix of `text` that holds no separator.
pub open spec fn segment_len(text: Seq<char>) -> nat
    decreases text.len(),
{
    if text.len() == 0 || text[0] == SEPARATOR {
        0
    } else {
        1 + segment_len(text.skip(1))
    }
}

/// The segments of `path`: the pieces between separators that are not empty, in order.
pub open spec fn segments(path: Seq<char>) -> Seq<Seq<char>>
    decreases path.len(),
{
    if path.len() == 0 {
        Seq::empty()
    } else if path[0] == SEPARATOR {
        segments(path.skip(1))
    } else {
        let n = segment_len(path) as int;
        proof {
            lemma_segment_len_bound(path);
        }
        seq![path.take(n)] + segments(path.skip(n))
    }
}

/// Whether `segment` can be a segment of a path: it is not empty and holds no separator.
pub open spec fn is_segment(segment: Seq<char>) -> bool {
    segment.len() > 0 && forall|i: int| 0 <= i < segment.len() ==> segment[i] != SEPARATOR
}

/// The path that leads through `segs`: each segment behind a separator. The path that
/// leads through no segment is the empty text, which stands for the root.
pub open spec fn path_of(segs: Seq<Seq<char>>) -> Seq<char>
    decreases segs.len(),
{
    if segs.len() == 0 {
        Seq::empty()
    } else {
        path_of(segs.drop_last()) + seq![SEPARATOR] + segs.last()
    }
}

/// The paths of the levels that lead to the node through `segs`, from the top level down:
/// one path for each segment, that of the node itself last.
pub open spec fn level_paths(segs: Seq<Seq<char>>) -> Seq<Seq<char>> {
    Seq::new(segs.len(), |i: int| path_of(segs.take(i + 1)))
}

/// The path of the node above `path`: `path` up to its last separator. The node above a
/// top-level node is the root.
pub open spec fn parent_path(path: Seq<char>) -> Seq<char>
    decreases path.len(),
{
    if path.len() == 0 {
        path
    } else if path.last() == SEPARATOR {
        path.drop_last()
    } else {
        parent_path(path.drop_last())
    }
}

/// The first segment of a text lies within it, holds no separator, and ends at a separator
/// or at the end of the text.
pub proof fn lemma_segment_len_bound(text: Seq<char>)
    ensures
        segment_len(text) <= text.len(),
        forall|i: int| 0 <= i < segment_len(text) ==> text[i] != SEPARATOR,
        segment_len(text) < text.len() ==> text[segment_len(text) as int] == SEPARATOR,
    decreases text.len(),
{
    if text.len() > 0 && text[0] != SEPARATOR {
        lemma_segment_len_bound(text.skip(1));
        assert forall|i: int| 0 <= i < segment_len(text) implies text[i] != SEPARATOR by {
            if i > 0 {
                assert(text.skip(1)[i - 1] == text[i]);
            }
        }
    }
}

/// A run of `n` characters without separator, ended by a separator or by the end of the
/// text, is the text's first segment.
proof fn lemma_segment_len_is(text: Seq<char>, n: nat)
    requires
        n <= text.len(),
        forall|i: int| 0 <= i < n ==> text[i] != SEPARATOR,
        n < text.len() ==> text[n as int] == SEPARATOR,
    ensures
        segment_len(text) == n,
    decreases n,
{
    if n > 0 {
        assert forall|i: int| 0 <= i < n - 1 implies text.skip(1)[i] != SEPARATOR by {
            assert(text.skip(1)[i] == text[i + 1]);
        }
        lemma_segment_len_is(text.skip(1), (n - 1) as nat);
    }
}

/// Every segment of a path is a segment: not empty, and free of separators.
pub proof fn lemma_segments_are_segments(path: Seq<char>)
    ensures
        forall|i: int| 0 <= i < segments(path).len() ==> is_segment(#[trigger] segments(path)[i]),
    decreases path.len(),
{
    if path.len() > 0 {
        if path[0] == SEPARATOR {
            lemma_segments_are_segments(path.skip(1));
            assert(segments(path) == segments(path.skip(1)));
        } else {
            let n = segment_len(path) as int;
            lemma_segment_len_bound(path);
            lemma_segments_are_segments(path.skip(n));
            assert(is_segment(path.take(n)));
            assert(segments(path) == seq![path.take(n)] + segments(path.skip(n)));
            assert forall|i: int| 0 <= i < segments(path).len() implies is_segment(
                #[trigger] segments(path)[i],
            ) by {
                if i > 0 {
                    assert(segments(path)[i] == segments(path.skip(n))[i - 1]);
                }
            }
        }
    }
}

/// The node above the path through `segs` is reached through all segments but the last.
pub proof fn lemma_parent_of_path(segs: Seq<Seq<char>>)
    requires
        segs.len() > 0,
        is_segment(segs.last()),
    ensures
        parent_path(path_of(segs)) == path_of(segs.drop_last()),
        path_of(segs).len() > 0,
{
    lemma_parent_of_appended(path_of(segs.drop_last()), segs.last());
}

proof fn lemma_parent_of_appended(above: Seq<char>, tail: Seq<char>)
    requires
        forall|i: int| 0 <= i < tail.len() ==> tail[i] != SEPARATOR,
    ensures
        parent_path(above + seq![SEPARATOR] + tail) == above,
    decreases tail.len(),
{
    let whole = above + seq![SEPARATOR] + tail;
    if tail.len() == 0 {
        assert(whole.drop_last() =~= above);
    } else {
        assert(whole.last() == tail.last());
        assert(whole.drop_last() =~= above + seq![SEPARATOR] + tail.drop_last());
        lemma_parent_of_appended(above, tail.drop_last());
    }
}

/// Splits `path` into its segments.
pub fn path_segments(path: &str) -> (segs: Vec<String>)
    ensures
        strs_view(segs@) == segments(path@),
{
    let n = path.unicode_len();
    let mut segs: Vec<String> = Vec::new();
    let mut i: usize = 0;
    let mut start: usize = 0;
    assert(path@.skip(0) =~= path@);
    assert(strs_view(segs@) =~= Seq::<Seq<char>>::empty());
    for c in it: path.chars()
        invariant
            it.seq() == path@,
            n == path@.len(),
            i == it.index(),
            start <= i,
            forall|k: int| start <= k < i ==> path@[k] != SEPARATOR,
            segments(path@) == strs_view(segs@) + segments(path@.skip(start as int)),
    {
        if c == SEPARATOR {
            if start < i {
                end_segment(path, &mut segs, start, i);
            }
            assert(path@.skip(i as int).skip(1) =~= path@.skip(i + 1));
            start = i + 1;
        }
        i += 1;
    }
    if start < n {
        end_segment(path, &mut segs, start, n);
    }
    assert(path@.skip(n as int) =~= Seq::<char>::empty());
    assert(strs_view(segs@) + Seq::<Seq<char>>::empty() =~= strs_view(segs@));
    segs
}

/// Appends to `segs` the segment of `path` that runs from `start` to `end`.
fn end_segment(path: &str, segs: &mut Vec<String>, start: usize, end: usize)
    requires
        start < end <= path@.len(),
        forall|k: int| start <= k < end ==> path@[k] != SEPARATOR,
        end < path@.len() ==> path@[end as int] == SEPARATOR,
    ensures
        strs_view(final(segs)@) + segments(path@.skip(end as int)) == strs_view(old(segs)@)
            + segments(path@.skip(start as int)),
{
    let ghost rest = path@.skip(start as int);
    let ghost before = strs_view(segs@);
    proof {
        lemma_segment_len_is(rest, (end - start) as nat);
        assert(rest.take(end - start) =~= path@.subrange(start as int, end as int));
        assert(rest.skip(end - start) =~= path@.skip(end as int));
    }
    segs.push(path.substring_char(start, end).to_owned());
    assert(strs_view(segs@) =~= before.push(path@.subrange(start as int, end as int)));
    assert(before + (seq![rest.take(end - start)] + segments(rest.skip(end - start)))
        =~= before.push(rest.take(end - start)) + segments(rest.skip(end - start)));
}

/// The paths of the levels that lead to the node through `segs`, from the top level down.
pub fn paths_of_levels(segs: &Vec<String>) -> (levels: Vec<String>)
    ensures
        strs_view(levels@) == level_paths(strs_view(segs@)),
{
    let mut levels: Vec<String> = Vec::new();
    let mut above = String::new();
    let mut i: usize = 0;
    assert(strs_view(segs@).take(0) =~= Seq::<Seq<char>>::empty());
    while i < segs.len()
        invariant
            i <= segs.len(),
            levels.len() == i,
            above@ == path_of(strs_view(segs@).take(i as int)),
            forall|k: int| 0 <= k < i ==> (#[trigger] levels[k])@ == path_of(strs_view(segs@).take(k + 1)),
        decreases segs.len() - i,
    {
        proof {
            reveal_strlit("/");
            let upto = strs_view(segs@).take(i + 1);
            assert(upto.drop_last() =~= strs_view(segs@).take(i as int));
            assert(upto.last() == segs[i as int]@);
            assert("/"@ =~= seq![SEPARATOR]);
        }
        above.append("/");
        above.append(segs[i].as_str());
        levels.push(above.clone());
        i += 1;
    }
    assert(strs_view(levels@) =~= level_paths(strs_view(segs@)));
    levels
}

} // verus!
