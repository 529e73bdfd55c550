//! What holds of the path algebra.

use crate::path::{
    ends_in_dot, is_absolute, is_dot, is_portable_relative, is_separator, join, parent,
    relative_to, render, segments, segments_below, strip_name, trim_tail, well_formed_segments,
};
use vstd::prelude::*;

verus! {

/// A path that does not end in a separator has a last segment, and that
/// segment is not empty.
pub proof fn lemma_open_run(path: Seq<char>)
    requires
        path.len() > 0,
        !is_separator(path.last()),
    ensures
        segments(path).len() > 0,
        segments(path).last().len() > 0,
        segments(path).last().last() == path.last(),
    decreases path.len(),
{
    if path.len() >= 2 && !is_separator(path[path.len() - 2]) {
        lemma_open_run(path.drop_last());
    }
}

/// Every segment of a path holds at least one character and no separator.
pub proof fn lemma_segments_well_formed(path: Seq<char>)
    ensures
        well_formed_segments(segments(path)),
    decreases path.len(),
{
    if path.len() > 0 {
        let before = segments(path.drop_last());
        lemma_segments_well_formed(path.drop_last());
        if !is_separator(path.last()) && path.len() >= 2 && !is_separator(path[path.len() - 2]) {
            lemma_open_run(path.drop_last());
        }
    }
}

/// Where `a` is empty or ends in a separator, the segments of `a + b` are
/// those of `a` followed by those of `b`.
pub proof fn lemma_segments_after_separator(a: Seq<char>, b: Seq<char>)
    requires
        a.len() == 0 || is_separator(a.last()),
    ensures
        segments(a + b) == segments(a) + segments(b),
    decreases b.len(),
{
    if b.len() == 0 {
        assert(a + b == a);
        assert(segments(a) + segments(b) == segments(a));
    } else {
        let c = b.last();
        let whole = a + b;
        assert(whole.drop_last() == a + b.drop_last());
        lemma_segments_after_separator(a, b.drop_last());
        if !is_separator(c) {
            if b.len() >= 2 {
                assert(whole[whole.len() - 2] == b[b.len() - 2]);
                if !is_separator(b[b.len() - 2]) {
                    lemma_open_run(b.drop_last());
                    let sa = segments(a);
                    let sb = segments(b.drop_last());
                    assert((sa + sb).drop_last() == sa + sb.drop_last());
                    assert((sa + sb).last() == sb.last());
                    assert((sa + sb.drop_last()).push(sb.last().push(c)) == sa
                        + sb.drop_last().push(sb.last().push(c)));
                } else {
                    let sa = segments(a);
                    let sb = segments(b.drop_last());
                    assert((sa + sb).push(seq![c]) == sa + sb.push(seq![c]));
                }
            } else {
                assert(b.drop_last().len() == 0);
                if a.len() > 0 {
                    assert(whole[whole.len() - 2] == a.last());
                }
                let sa = segments(a);
                let sb = segments(b.drop_last());
                assert((sa + sb).push(seq![c]) == sa + sb.push(seq![c]));
            }
        }
    }
}

/// The segments of a joined path are those of the base followed by those of
/// the path joined to it, unless that path is absolute.
pub proof fn lemma_segments_join(base: Seq<char>, rel: Seq<char>)
    requires
        !is_absolute(rel),
    ensures
        segments(join(base, rel)) == segments(base) + segments(rel),
        is_absolute(join(base, rel)) == is_absolute(base),
{
    if base.len() == 0 || is_separator(base.last()) {
        lemma_segments_after_separator(base, rel);
        if base.len() == 0 {
            assert(base + rel == rel);
        }
    } else {
        let stem = base + seq!['/'];
        assert(stem.drop_last() == base);
        assert(base + seq!['/'] + rel == stem + rel);
        lemma_segments_after_separator(stem, rel);
    }
}

/// Giving the last segment one more character gives the rendering one more.
proof fn lemma_render_extend(segs: Seq<Seq<char>>, c: char)
    requires
        segs.len() > 0,
    ensures
        render(segs.drop_last().push(segs.last().push(c))) == render(segs).push(c),
{
    let longer = segs.drop_last().push(segs.last().push(c));
    if segs.len() > 1 {
        assert(longer.drop_last() == segs.drop_last());
        assert(render(segs.drop_last()) + seq!['/'] + segs.last().push(c) == (render(
            segs.drop_last(),
        ) + seq!['/'] + segs.last()).push(c));
    }
}

/// `path` without the separators at its end.
pub open spec fn trim_end(path: Seq<char>) -> Seq<char>
    decreases path.len(),
{
    if path.len() > 0 && is_separator(path.last()) {
        trim_end(path.drop_last())
    } else {
        path
    }
}

/// No `\`, no `/` in front and no two `/` in a row.
spec fn is_tidy(path: Seq<char>) -> bool {
    &&& forall|i: int| 0 <= i < path.len() ==> path[i] != '\\'
    &&& path.len() > 0 ==> path[0] != '/'
    &&& forall|i: int| 0 <= i < path.len() - 1 ==> !(path[i] == '/' && #[trigger] path[i + 1] == '/')
}

/// Rendering the segments of a tidy path gives the path back, but for a
/// `/` at its end.
proof fn lemma_render_tidy(path: Seq<char>)
    requires
        is_tidy(path),
    ensures
        render(segments(path)) == trim_end(path),
    decreases path.len(),
{
    if path.len() > 0 {
        let q = path.drop_last();
        let c = path.last();
        assert(is_tidy(q)) by {
            assert forall|i: int| 0 <= i < q.len() - 1 implies !(q[i] == '/' && #[trigger] q[i + 1]
                == '/') by {
                assert(q[i] == path[i] && q[i + 1] == path[i + 1]);
            }
        }
        lemma_render_tidy(q);
        if !is_separator(c) {
            if q.len() == 0 {
                assert(segments(path) == seq![seq![c]]);
                assert(seq![c] == path);
            } else if !is_separator(q.last()) {
                lemma_open_run(q);
                lemma_render_extend(segments(q), c);
                assert(q.push(c) == path);
            } else {
                let r = q.drop_last();
                assert(q.last() == '/');
                assert(r.len() > 0);
                assert(path[q.len() - 2 + 1] == '/');
                assert(r.last() == path[q.len() - 2]);
                assert(!is_separator(r.last()));
                lemma_open_run(r);
                assert(trim_end(q) == trim_end(r));
                assert(trim_end(r) == r);
                let segs = segments(q).push(seq![c]);
                assert(segs.drop_last() == segments(q));
                assert(r + seq!['/'] + seq![c] == path);
            }
        }
    }
}

/// A relative path in portable form is the rendering of its own segments.
pub proof fn lemma_portable_is_rendered(path: Seq<char>)
    requires
        is_portable_relative(path),
    ensures
        render(segments(path)) == path,
        !is_absolute(path),
{
    assert(is_tidy(path));
    lemma_render_tidy(path);
}

/// Segments that are well formed render to a relative path in portable
/// form, which is empty only where there are no segments.
pub proof fn lemma_render_is_portable(segs: Seq<Seq<char>>)
    requires
        well_formed_segments(segs),
    ensures
        is_portable_relative(render(segs)),
        segs.len() > 0 ==> render(segs).len() > 0,
    decreases segs.len(),
{
    if segs.len() == 1 {
        let only = segs[0];
        assert forall|i: int| 0 <= i < only.len() implies !is_separator(only[i]) by {
            assert(!is_separator(segs[0][i]));
        }
    } else if segs.len() > 1 {
        let front = segs.drop_last();
        let last = segs.last();
        assert(well_formed_segments(front)) by {
            assert forall|k: int| 0 <= k < front.len() implies (#[trigger] front[k]).len() > 0 by {
                assert(front[k] == segs[k]);
            }
            assert forall|k: int, i: int|
                0 <= k < front.len() && 0 <= i < front[k].len() implies !is_separator(
                #[trigger] front[k][i],
            ) by {
                assert(front[k][i] == segs[k][i]);
            }
        }
        lemma_render_is_portable(front);
        let head = render(front);
        let whole = head + seq!['/'] + last;
        assert(last.len() > 0);
        assert forall|i: int| 0 <= i < last.len() implies !is_separator(last[i]) by {
            assert(!is_separator(segs[segs.len() - 1][i]));
        }
        assert(head.len() > 0);
        assert forall|i: int| 0 <= i < whole.len() implies whole[i] != '\\' by {
            if i < head.len() {
                assert(whole[i] == head[i]);
            } else if i > head.len() {
                assert(whole[i] == last[i - head.len() - 1]);
            }
        }
        assert(whole[0] == head[0]);
        assert(whole.last() == last.last());
        assert forall|i: int| 0 <= i < whole.len() - 1 implies !(whole[i] == '/' && #[trigger] whole[i
            + 1] == '/') by {
            if i + 1 < head.len() {
                assert(whole[i] == head[i] && whole[i + 1] == head[i + 1]);
            } else if i + 1 == head.len() {
                assert(whole[i] == head.last());
            } else {
                assert(whole[i + 1] == last[i - head.len()]);
            }
        }
    }
}

/// Every relative path that `relative_to` yields is in portable form.
pub proof fn lemma_relative_is_portable(root: Seq<char>, path: Seq<char>)
    requires
        relative_to(root, path) is Some,
    ensures
        is_portable_relative(relative_to(root, path)->0),
{
    let rest = segments(path).skip(segments(root).len() as int);
    lemma_segments_well_formed(path);
    assert(well_formed_segments(rest)) by {
        let n = segments(root).len() as int;
        assert forall|k: int| 0 <= k < rest.len() implies (#[trigger] rest[k]).len() > 0 by {
            assert(rest[k] == segments(path)[k + n]);
        }
        assert forall|k: int, i: int|
            0 <= k < rest.len() && 0 <= i < rest[k].len() implies !is_separator(
            #[trigger] rest[k][i],
        ) by {
            assert(rest[k][i] == segments(path)[k + n][i]);
        }
    }
    lemma_render_is_portable(rest);
}

/// The segments of a relative path are the segments of the path that lie
/// below the root.
pub proof fn lemma_relative_segments(root: Seq<char>, path: Seq<char>)
    requires
        relative_to(root, path) is Some,
    ensures
        segments(relative_to(root, path)->0) == segments_below(root, path),
        well_formed_segments(segments_below(root, path)),
{
    let n = segments(root).len() as int;
    let rest = segments(path).skip(n);
    lemma_segments_well_formed(path);
    assert(well_formed_segments(rest)) by {
        assert forall|k: int| 0 <= k < rest.len() implies (#[trigger] rest[k]).len() > 0 by {
            assert(rest[k] == segments(path)[k + n]);
        }
        assert forall|k: int, i: int|
            0 <= k < rest.len() && 0 <= i < rest[k].len() implies !is_separator(
            #[trigger] rest[k][i],
        ) by {
            assert(rest[k][i] == segments(path)[k + n][i]);
        }
    }
    lemma_segments_of_rendering(rest);
}

/// The round trip: a relative path in portable form, made absolute under
/// any root and then taken relative to that root again, comes back
/// unchanged.
pub proof fn law_relative_round_trip(root: Seq<char>, relative: Seq<char>)
    requires
        is_portable_relative(relative),
    ensures
        relative_to(root, join(root, relative)) == Some(relative),
{
    lemma_portable_is_rendered(relative);
    lemma_segments_join(root, relative);
    let whole = segments(root) + segments(relative);
    assert(whole.subrange(0, segments(root).len() as int) == segments(root));
    assert(whole.skip(segments(root).len() as int) == segments(relative));
}

/// A run of characters without a separator is one segment.
pub proof fn lemma_single_segment(name: Seq<char>)
    requires
        name.len() > 0,
        forall|i: int| 0 <= i < name.len() ==> !is_separator(name[i]),
    ensures
        segments(name) == seq![name],
    decreases name.len(),
{
    if name.len() == 1 {
        assert(segments(name.drop_last()) == Seq::<Seq<char>>::empty());
        assert(seq![name.last()] == name);
    } else {
        let front = name.drop_last();
        lemma_single_segment(front);
        assert(seq![front].drop_last().push(seq![front].last().push(name.last())) == seq![name]) by {
            assert(front.push(name.last()) == name);
        }
    }
}

/// Splitting undoes rendering: the segments of a rendering are the segments
/// that were rendered.
pub proof fn lemma_segments_of_rendering(segs: Seq<Seq<char>>)
    requires
        well_formed_segments(segs),
    ensures
        segments(render(segs)) == segs,
    decreases segs.len(),
{
    if segs.len() == 1 {
        assert forall|i: int| 0 <= i < segs[0].len() implies !is_separator(segs[0][i]) by {
            assert(!is_separator(segs[0][i]));
        }
        lemma_single_segment(segs[0]);
        assert(seq![segs[0]] == segs);
    } else if segs.len() > 1 {
        let front = segs.drop_last();
        let last = segs.last();
        assert(well_formed_segments(front)) by {
            assert forall|k: int| 0 <= k < front.len() implies (#[trigger] front[k]).len() > 0 by {
                assert(front[k] == segs[k]);
            }
            assert forall|k: int, i: int|
                0 <= k < front.len() && 0 <= i < front[k].len() implies !is_separator(
                #[trigger] front[k][i],
            ) by {
                assert(front[k][i] == segs[k][i]);
            }
        }
        lemma_segments_of_rendering(front);
        assert forall|i: int| 0 <= i < last.len() implies !is_separator(last[i]) by {
            assert(!is_separator(segs[segs.len() - 1][i]));
        }
        lemma_single_segment(last);
        let stem = render(front) + seq!['/'];
        assert(stem.drop_last() == render(front));
        lemma_segments_after_separator(stem, last);
        assert(front + seq![last] == segs);
    }
}

/// The other way round: where a path lies under a root, its relative path,
/// made absolute under that root, has the segments of the path itself, and
/// so names the same file.
pub proof fn law_absolute_of_relative(root: Seq<char>, path: Seq<char>)
    requires
        relative_to(root, path) is Some,
    ensures
        segments(join(root, relative_to(root, path)->0)) == segments(path),
{
    let relative = relative_to(root, path)->0;
    let n = segments(root).len() as int;
    let rest = segments(path).skip(n);
    lemma_segments_well_formed(path);
    assert(well_formed_segments(rest)) by {
        assert forall|k: int| 0 <= k < rest.len() implies (#[trigger] rest[k]).len() > 0 by {
            assert(rest[k] == segments(path)[k + n]);
        }
        assert forall|k: int, i: int|
            0 <= k < rest.len() && 0 <= i < rest[k].len() implies !is_separator(
            #[trigger] rest[k][i],
        ) by {
            assert(rest[k][i] == segments(path)[k + n][i]);
        }
    }
    lemma_render_is_portable(rest);
    lemma_portable_is_rendered(relative);
    lemma_segments_of_rendering(rest);
    lemma_segments_join(root, relative);
    assert(segments(root) + rest == segments(path));
}

/// Separators at the end of a path add no segment, and what is left when
/// they are gone begins the path.
proof fn lemma_trim_end(path: Seq<char>)
    ensures
        segments(trim_end(path)) == segments(path),
        trim_end(path).is_prefix_of(path),
        trim_end(path).len() > 0 ==> !is_separator(trim_end(path).last()),
    decreases path.len(),
{
    if path.len() > 0 && is_separator(path.last()) {
        lemma_trim_end(path.drop_last());
        let short = trim_end(path.drop_last());
        assert(short =~= path.subrange(0, short.len() as int)) by {
            assert(short =~= path.drop_last().subrange(0, short.len() as int));
        }
    } else {
        assert(path =~= path.subrange(0, path.len() as int));
    }
}

/// The run of characters at the end of a path is its last segment: without
/// it the path has the segments before that one, and what is left begins
/// the path and is empty or ends in a separator.
proof fn lemma_strip_name(path: Seq<char>)
    requires
        path.len() > 0,
        !is_separator(path.last()),
    ensures
        segments(strip_name(path)) == segments(path).drop_last(),
        segments(path).len() > 0,
        strip_name(path).is_prefix_of(path),
        strip_name(path).len() < path.len(),
        strip_name(path).len() > 0 ==> is_separator(strip_name(path).last()),
    decreases path.len(),
{
    let front = path.drop_last();
    let c = path.last();
    lemma_open_run(path);
    if path.len() >= 2 && !is_separator(path[path.len() - 2]) {
        lemma_strip_name(front);
        let before = segments(front);
        assert(before.drop_last().push(before.last().push(c)).drop_last() == before.drop_last());
        let stem = strip_name(front);
        assert(stem =~= path.subrange(0, stem.len() as int)) by {
            assert(stem =~= front.subrange(0, stem.len() as int));
        }
    } else {
        assert(strip_name(front) == front);
        assert(segments(front).push(seq![c]).drop_last() == segments(front));
        assert(front =~= path.subrange(0, front.len() as int));
    }
}

/// None of the segments of `path` is `.`.
pub open spec fn has_no_dot_segment(path: Seq<char>) -> bool {
    forall|k: int| 0 <= k < segments(path).len() ==> !is_dot(#[trigger] segments(path)[k])
}

/// In a path without `.` segments, only separators name nothing at its end.
proof fn lemma_trim_tail_plain(path: Seq<char>)
    requires
        has_no_dot_segment(path),
    ensures
        trim_tail(path) == trim_end(path),
    decreases path.len(),
{
    if path.len() > 0 {
        if is_separator(path.last()) {
            assert(segments(path.drop_last()) == segments(path));
            lemma_trim_tail_plain(path.drop_last());
        } else if ends_in_dot(path) {
            let segs = segments(path);
            assert(segs.last() == seq!['.']);
            assert(is_dot(segs[segs.len() - 1]));
        }
    }
}

/// A path without `.` segments has a parent exactly where it has a segment.
/// The parent has the segments of the path but the last, and is absolute
/// where the path is.
pub proof fn lemma_parent_segments(path: Seq<char>)
    requires
        has_no_dot_segment(path),
    ensures
        parent(path) is Some <==> segments(path).len() > 0,
        parent(path) matches Some(dir) ==> segments(dir) == segments(path).drop_last()
            && is_absolute(dir) == is_absolute(path),
{
    let named = trim_end(path);
    lemma_trim_end(path);
    lemma_trim_tail_plain(path);
    if named.len() > 0 {
        lemma_strip_name(named);
        let head = strip_name(named);
        let dir = trim_end(head);
        lemma_trim_end(head);
        assert(has_no_dot_segment(head)) by {
            assert forall|k: int| 0 <= k < segments(head).len() implies !is_dot(
                #[trigger] segments(head)[k],
            ) by {
                assert(segments(head)[k] == segments(path)[k]);
            }
        }
        lemma_trim_tail_plain(head);
        assert(named[0] == path[0]) by {
            assert(named =~= path.subrange(0, named.len() as int));
        }
        if head.len() > 0 {
            assert(head[0] == named[0]) by {
                assert(head =~= named.subrange(0, head.len() as int));
            }
        }
        if dir.len() > 0 {
            assert(dir[0] == head[0]) by {
                assert(dir =~= head.subrange(0, dir.len() as int));
            }
        }
        if dir.len() == 0 && head.len() > 0 {
            let sep = head.take(1);
            assert(sep.drop_last() == Seq::<char>::empty());
            assert(sep.last() == head[0]);
            lemma_all_separators(head);
            assert(is_separator(head[0]));
            assert(segments(Seq::<char>::empty()) == Seq::<Seq<char>>::empty());
            assert(segments(sep) == Seq::<Seq<char>>::empty());
        } else if head.len() == 0 {
            assert(!is_separator(named[0])) by {
                lemma_no_separator_before_name(named);
            }
        }
    } else {
        assert(segments(named) == Seq::<Seq<char>>::empty());
    }
}

/// A path that is nothing once the separators at its end are gone holds
/// separators only.
proof fn lemma_all_separators(path: Seq<char>)
    requires
        trim_end(path).len() == 0,
    ensures
        forall|i: int| 0 <= i < path.len() ==> is_separator(#[trigger] path[i]),
    decreases path.len(),
{
    if path.len() > 0 {
        lemma_all_separators(path.drop_last());
        assert forall|i: int| 0 <= i < path.len() implies is_separator(#[trigger] path[i]) by {
            if i < path.len() - 1 {
                assert(path.drop_last()[i] == path[i]);
            }
        }
    }
}

/// A path of which nothing is left without the run at its end holds no
/// separator.
proof fn lemma_no_separator_before_name(path: Seq<char>)
    requires
        strip_name(path).len() == 0,
    ensures
        forall|i: int| 0 <= i < path.len() ==> !is_separator(#[trigger] path[i]),
    decreases path.len(),
{
    if path.len() > 0 {
        lemma_no_separator_before_name(path.drop_last());
        assert forall|i: int| 0 <= i < path.len() implies !is_separator(#[trigger] path[i]) by {
            if i < path.len() - 1 {
                assert(path.drop_last()[i] == path[i]);
            }
        }
    }
}

} // verus!
