//! Portable path algebra.
//!
//! A path is a sequence of characters. Both `/` and `\` separate its
//! segments, so that paths written on any host are read alike; workspace
//! relative paths are always rendered with `/` alone.

use crate::error::{failure, ErrorKind, FsError, FsErrorView};
use crate::path_laws::lemma_relative_is_portable;
use crate::text::{chars_of, same_chars, text_of};
use vstd::prelude::*;

verus! {

/// Both `/` and `\` separate the segments of a path.
pub open spec fn is_separator(c: char) -> bool {
    c == '/' || c == '\\'
}

/// The segments of `path`: its maximal runs of characters that are not
/// separators, from left to right. Empty runs do not count, so
/// `"/ws//a/x.png"` has the segments `ws`, `a` and `x.png`.
pub open spec fn segments(path: Seq<char>) -> Seq<Seq<char>>
    decreases path.len(),
{
    if path.len() == 0 {
        Seq::empty()
    } else {
        let before = segments(path.drop_last());
        let c = path.last();
        if is_separator(c) {
            before
        } else if path.len() >= 2 && !is_separator(path[path.len() - 2]) {
            before.drop_last().push(before.last().push(c))
        } else {
            before.push(seq![c])
        }
    }
}

/// A path is absolute when it begins with a separator.
pub open spec fn is_absolute(path: Seq<char>) -> bool {
    path.len() > 0 && is_separator(path[0])
}

/// The segments joined by single `/` characters.
pub open spec fn render(segs: Seq<Seq<char>>) -> Seq<char>
    decreases segs.len(),
{
    if segs.len() == 0 {
        Seq::empty()
    } else if segs.len() == 1 {
        segs[0]
    } else {
        render(segs.drop_last()) + seq!['/'] + segs.last()
    }
}

/// Each segment holds at least one character and no separator.
pub open spec fn well_formed_segments(segs: Seq<Seq<char>>) -> bool {
    &&& forall|k: int| 0 <= k < segs.len() ==> (#[trigger] segs[k]).len() > 0
    &&& forall|k: int, i: int|
        0 <= k < segs.len() && 0 <= i < segs[k].len() ==> !is_separator(#[trigger] segs[k][i])
}

/// The views of the vectors in `segs`.
pub open spec fn segment_views(segs: Seq<Vec<char>>) -> Seq<Seq<char>> {
    segs.map_values(|s: Vec<char>| s@)
}

/// Whether `c` separates segments.
pub fn is_separator_char(c: char) -> (b: bool)
    ensures
        b == is_separator(c),
{
    c == '/' || c == '\\'
}

/// Splits `path` into its segments.
pub(crate) fn split_segments(path: &Vec<char>) -> (segs: Vec<Vec<char>>)
    ensures
        segment_views(segs@) == segments(path@),
{
    let mut segs: Vec<Vec<char>> = Vec::new();
    let mut run: Vec<char> = Vec::new();
    let mut i: usize = 0;
    while i < path.len()
        invariant
            i <= path.len(),
            run.len() > 0 <==> (i > 0 && !is_separator(path@[i - 1])),
            segments(path@.take(i as int)) == if run.len() > 0 {
                segment_views(segs@).push(run@)
            } else {
                segment_views(segs@)
            },
        decreases path.len() - i,
    {
        let c = path[i];
        proof {
            assert(path@.take(i + 1).drop_last() == path@.take(i as int));
            assert(path@.take(i + 1).last() == c);
            if i > 0 {
                assert(path@.take(i + 1)[i - 1] == path@[i - 1]);
            }
        }
        if is_separator_char(c) {
            if run.len() > 0 {
                let ghost before = segment_views(segs@);
                segs.push(run);
                run = Vec::new();
                assert(segment_views(segs@) == before.push(segs@.last()@));
            }
        } else {
            let ghost before = segment_views(segs@);
            let ghost pending = run@;
            run.push(c);
            proof {
                if pending.len() > 0 {
                    assert(before.push(pending).drop_last() == before);
                    assert(before.push(pending).last() == pending);
                } else {
                    assert(run@ == seq![c]);
                }
            }
        }
        i += 1;
    }
    proof {
        assert(path@.take(i as int) == path@);
    }
    if run.len() > 0 {
        let ghost before = segment_views(segs@);
        segs.push(run);
        assert(segment_views(segs@) == before.push(segs@.last()@));
    }
    segs
}

/// `base` followed by `rel`. An absolute `rel` stands alone; otherwise the
/// two are joined by one `/`, which is left out where `base` is empty or
/// ends in a separator already.
pub open spec fn join(base: Seq<char>, rel: Seq<char>) -> Seq<char> {
    if is_absolute(rel) {
        rel
    } else if base.len() == 0 || is_separator(base.last()) {
        base + rel
    } else {
        base + seq!['/'] + rel
    }
}

/// A path taken apart: whether it is absolute, and its segments.
pub struct PartsView {
    pub absolute: bool,
    pub segments: Seq<Seq<char>>,
}

/// The parts of `path`.
pub open spec fn parts(path: Seq<char>) -> PartsView {
    PartsView { absolute: is_absolute(path), segments: segments(path) }
}

/// A path as seen from a root, both taken apart: the segments of the path
/// that follow those of the root, joined by `/`. There is none where the
/// segments of the root do not begin those of the path, or where only one of
/// the two is absolute.
pub open spec fn relative_parts(root: PartsView, path: PartsView) -> Option<Seq<char>> {
    if root.absolute == path.absolute && root.segments.is_prefix_of(path.segments) {
        Some(render(path.segments.skip(root.segments.len() as int)))
    } else {
        None
    }
}

/// `path` as seen from `root`.
pub open spec fn relative_to(root: Seq<char>, path: Seq<char>) -> Option<Seq<char>> {
    relative_parts(parts(root), parts(path))
}

/// Whether one of the segments begins with a dot.
pub open spec fn any_hidden(segs: Seq<Seq<char>>) -> bool {
    exists|k: int| 0 <= k < segs.len() && (#[trigger] segs[k]).len() > 0 && segs[k][0] == '.'
}

/// The segments of `path` that lie below `root`: those that follow as many
/// segments as `root` has.
pub open spec fn segments_below(root: Seq<char>, path: Seq<char>) -> Seq<Seq<char>> {
    let depth = segments(root).len();
    if depth <= segments(path).len() {
        segments(path).skip(depth as int)
    } else {
        Seq::empty()
    }
}

/// Whether some segment of `path` begins with a dot.
pub open spec fn has_hidden_segment(path: Seq<char>) -> bool {
    any_hidden(segments(path))
}

/// The segment `.`, which stands for the directory it is written in.
pub open spec fn is_dot(segment: Seq<char>) -> bool {
    segment == seq!['.']
}

/// The segment `..`, which stands for the directory above.
pub open spec fn is_dot_dot(segment: Seq<char>) -> bool {
    segment == seq!['.', '.']
}

/// The segments without the `.` segments at their end.
pub open spec fn without_dots_at_end(segs: Seq<Seq<char>>) -> Seq<Seq<char>>
    decreases segs.len(),
{
    if segs.len() > 0 && is_dot(segs.last()) {
        without_dots_at_end(segs.drop_last())
    } else {
        segs
    }
}

/// The name that the segments end in: the last of them that is not `.`.
/// There is none where no such segment is left, or where it is `..`.
pub open spec fn last_name(segs: Seq<Seq<char>>) -> Option<Seq<char>> {
    let named = without_dots_at_end(segs);
    if named.len() == 0 || is_dot_dot(named.last()) {
        None
    } else {
        Some(named.last())
    }
}

/// The name that `path` ends in: its last segment that is not `.`, unless
/// that is `..`. So `"Pictures/."` is named `Pictures`, and `"."`, `".."` and
/// `"/"` have no name.
pub open spec fn file_name(path: Seq<char>) -> Option<Seq<char>> {
    last_name(segments(path))
}

/// The index of the last dot in `name`, or -1 where it holds none.
pub open spec fn last_dot(name: Seq<char>) -> int
    decreases name.len(),
{
    if name.len() == 0 {
        -1
    } else if name.last() == '.' {
        name.len() - 1
    } else {
        last_dot(name.drop_last())
    }
}

/// What follows the last dot of a file name. A name without a dot has no
/// extension, nor has one whose only dot is its first character.
pub open spec fn name_extension(name: Seq<char>) -> Option<Seq<char>> {
    let dot = last_dot(name);
    if dot <= 0 {
        None
    } else {
        Some(name.skip(dot + 1))
    }
}

/// The extension of the file that `path` names.
pub open spec fn extension(path: Seq<char>) -> Option<Seq<char>> {
    match file_name(path) {
        Some(name) => name_extension(name),
        None => None,
    }
}

/// Whether `path` ends in a `.` segment that follows a separator.
pub open spec fn ends_in_dot(path: Seq<char>) -> bool {
    path.len() >= 2 && path.last() == '.' && is_separator(path[path.len() - 2])
}

/// `path` without what names nothing at its end: separators, and `.`
/// segments that follow a separator.
pub open spec fn trim_tail(path: Seq<char>) -> Seq<char>
    decreases path.len(),
{
    if path.len() > 0 && (is_separator(path.last()) || ends_in_dot(path)) {
        trim_tail(path.drop_last())
    } else {
        path
    }
}

/// `path` without the run of non-separators at its end.
pub open spec fn strip_name(path: Seq<char>) -> Seq<char>
    decreases path.len(),
{
    if path.len() > 0 && !is_separator(path.last()) {
        strip_name(path.drop_last())
    } else {
        path
    }
}

/// The directory that holds what `path` names: `path` without its last
/// segment and what names nothing around it, that is separators and `.`
/// segments that follow one. So the parent of `"/ws/a/."` is `"/ws"`. The
/// parent of a name directly under the root is the root's separator, that of
/// a bare name is empty, and a path without a segment to take away has no
/// parent.
pub open spec fn parent(path: Seq<char>) -> Option<Seq<char>> {
    let named = trim_tail(path);
    if named.len() == 0 {
        None
    } else {
        let head = strip_name(named);
        let dir = trim_tail(head);
        if dir.len() == 0 && head.len() > 0 {
            Some(head.take(1))
        } else {
            Some(dir)
        }
    }
}

/// The form in which relative paths leave this crate: segments joined by
/// single `/` characters, with no `\`, and no `/` at either end.
pub open spec fn is_portable_relative(path: Seq<char>) -> bool {
    &&& forall|i: int| 0 <= i < path.len() ==> path[i] != '\\'
    &&& path.len() > 0 ==> path[0] != '/' && path.last() != '/'
    &&& forall|i: int| 0 <= i < path.len() - 1 ==> !(path[i] == '/' && #[trigger] path[i + 1] == '/')
}

/// The error of a path that lies outside its workspace.
pub open spec fn outside_workspace(path: Seq<char>) -> FsErrorView {
    failure(ErrorKind::InvalidPath, "Failed to get relative path: "@, "prefix not found"@, path)
}

/// Appends `more` to `out`.
fn append_chars(out: &mut Vec<char>, more: &Vec<char>)
    ensures
        final(out)@ == old(out)@ + more@,
{
    let mut i: usize = 0;
    while i < more.len()
        invariant
            i <= more.len(),
            out@ == old(out)@ + more@.take(i as int),
        decreases more.len() - i,
    {
        out.push(more[i]);
        proof {
            assert(more@.take(i + 1) == more@.take(i as int).push(more@[i as int]));
        }
        i += 1;
    }
    proof {
        assert(more@.take(i as int) == more@);
    }
}

/// Joins two paths.
pub(crate) fn join_chars(base: &Vec<char>, rel: &Vec<char>) -> (out: Vec<char>)
    ensures
        out@ == join(base@, rel@),
{
    let mut out: Vec<char> = Vec::new();
    if !(rel.len() > 0 && is_separator_char(rel[0])) {
        append_chars(&mut out, base);
        if base.len() > 0 && !is_separator_char(base[base.len() - 1]) {
            out.push('/');
        }
    }
    append_chars(&mut out, rel);
    out
}

/// Joins the segments from index `from` on by `/`.
fn render_from(segs: &Vec<Vec<char>>, from: usize) -> (out: Vec<char>)
    requires
        from <= segs.len(),
    ensures
        out@ == render(segment_views(segs@).skip(from as int)),
{
    let mut out: Vec<char> = Vec::new();
    let mut k: usize = from;
    let ghost views = segment_views(segs@);
    while k < segs.len()
        invariant
            from <= k <= segs.len(),
            views == segment_views(segs@),
            out@ == render(views.subrange(from as int, k as int)),
        decreases segs.len() - k,
    {
        proof {
            let next = views.subrange(from as int, k + 1);
            assert(next.drop_last() == views.subrange(from as int, k as int));
            assert(next.last() == segs@[k as int]@);
        }
        if k > from {
            out.push('/');
        }
        append_chars(&mut out, &segs[k]);
        k += 1;
    }
    proof {
        assert(views.subrange(from as int, k as int) == views.skip(from as int));
    }
    out
}

/// Whether the segments of `root` begin those of `path`.
fn begins_with(path: &Vec<Vec<char>>, root: &Vec<Vec<char>>) -> (yes: bool)
    ensures
        yes == segment_views(root@).is_prefix_of(segment_views(path@)),
{
    if root.len() > path.len() {
        return false;
    }
    let ghost r = segment_views(root@);
    let ghost p = segment_views(path@);
    let mut k: usize = 0;
    while k < root.len()
        invariant
            k <= root.len() <= path.len(),
            r == segment_views(root@),
            p == segment_views(path@),
            forall|j: int| 0 <= j < k ==> r[j] == p[j],
        decreases root.len() - k,
    {
        if !same_chars(&root[k], &path[k]) {
            proof {
                assert(r[k as int] != p.subrange(0, r.len() as int)[k as int]);
            }
            return false;
        }
        k += 1;
    }
    proof {
        assert(r =~= p.subrange(0, r.len() as int));
    }
    true
}

/// A path taken apart.
pub(crate) struct Parts {
    pub absolute: bool,
    pub segments: Vec<Vec<char>>,
}

impl Parts {
    /// The parts as a mathematical value.
    pub(crate) open spec fn view(&self) -> PartsView {
        PartsView { absolute: self.absolute, segments: segment_views(self.segments@) }
    }
}

/// Takes `path` apart.
pub(crate) fn parts_of(path: &Vec<char>) -> (out: Parts)
    ensures
        out@ == parts(path@),
{
    Parts {
        absolute: path.len() > 0 && is_separator_char(path[0]),
        segments: split_segments(path),
    }
}

/// Whether two paths have the same parts.
pub(crate) fn same_parts(a: &Parts, b: &Parts) -> (same: bool)
    ensures
        same == (a@ == b@),
{
    let same = a.absolute == b.absolute && a.segments.len() == b.segments.len() && begins_with(
        &a.segments,
        &b.segments,
    );
    proof {
        let x = segment_views(a.segments@);
        let y = segment_views(b.segments@);
        if same {
            assert(x.subrange(0, y.len() as int) == x);
            assert(x =~= y);
        } else if a.absolute == b.absolute && x.len() == y.len() {
            assert(y.subrange(0, y.len() as int) == y);
        }
    }
    same
}

/// A path as seen from a root, where it lies under it.
pub(crate) fn relative_among(root: &Parts, path: &Parts) -> (out: Option<Vec<char>>)
    ensures
        match out {
            Some(rel) => relative_parts(root@, path@) == Some(rel@),
            None => relative_parts(root@, path@) is None,
        },
{
    if root.absolute == path.absolute && begins_with(&path.segments, &root.segments) {
        Some(render_from(&path.segments, root.segments.len()))
    } else {
        None
    }
}

/// Whether one of the segments from index `from` on begins with a dot.
pub(crate) fn hidden_from(segs: &Vec<Vec<char>>, from: usize) -> (hidden: bool)
    requires
        from <= segs.len(),
    ensures
        hidden == any_hidden(segment_views(segs@).skip(from as int)),
{
    let ghost views = segment_views(segs@).skip(from as int);
    let mut k: usize = from;
    while k < segs.len()
        invariant
            from <= k <= segs.len(),
            views == segment_views(segs@).skip(from as int),
            forall|j: int|
                0 <= j < k - from ==> !((#[trigger] views[j]).len() > 0 && views[j][0] == '.'),
        decreases segs.len() - k,
    {
        if segs[k].len() > 0 && segs[k][0] == '.' {
            proof {
                let j = k - from;
                assert(views[j] == segs@[k as int]@);
                assert(views[j].len() > 0 && views[j][0] == '.');
            }
            return true;
        }
        proof {
            assert(views[k - from] == segs@[k as int]@);
        }
        k += 1;
    }
    false
}

/// Whether `segment` is `.`.
fn is_dot_chars(segment: &Vec<char>) -> (yes: bool)
    ensures
        yes == is_dot(segment@),
{
    let yes = segment.len() == 1 && segment[0] == '.';
    proof {
        if yes {
            assert(segment@ == seq!['.']);
        } else if segment.len() == 1 {
            assert(seq!['.'][0] == '.');
        } else {
            assert(seq!['.'].len() == 1);
        }
    }
    yes
}

/// Whether `segment` is `..`.
fn is_dot_dot_chars(segment: &Vec<char>) -> (yes: bool)
    ensures
        yes == is_dot_dot(segment@),
{
    let yes = segment.len() == 2 && segment[0] == '.' && segment[1] == '.';
    proof {
        if yes {
            assert(segment@ == seq!['.', '.']);
        } else if segment.len() == 2 {
            assert(seq!['.', '.'][0] == '.' && seq!['.', '.'][1] == '.');
        } else {
            assert(seq!['.', '.'].len() == 2);
        }
    }
    yes
}

/// The name that the segments end in.
pub(crate) fn name_among(segs: &Vec<Vec<char>>) -> (out: Option<Vec<char>>)
    ensures
        match out {
            Some(name) => last_name(segment_views(segs@)) == Some(name@),
            None => last_name(segment_views(segs@)) is None,
        },
{
    let ghost views = segment_views(segs@);
    let mut end: usize = segs.len();
    proof {
        assert(views.take(end as int) == views);
    }
    while end > 0 && is_dot_chars(&segs[end - 1])
        invariant
            end <= segs.len(),
            views == segment_views(segs@),
            without_dots_at_end(views) == without_dots_at_end(views.take(end as int)),
        decreases end,
    {
        proof {
            assert(views.take(end as int).last() == segs@[end - 1]@);
            assert(views.take(end as int).drop_last() == views.take(end - 1));
        }
        end -= 1;
    }
    if end == 0 {
        return None;
    }
    let last = &segs[end - 1];
    proof {
        assert(views.take(end as int).last() == last@);
    }
    if is_dot_dot_chars(last) {
        None
    } else {
        proof {
            assert(last@.take(last.len() as int) == last@);
        }
        Some(prefix_chars(last, last.len()))
    }
}

/// What follows the last dot of `name`.
pub(crate) fn name_extension_chars(name: &Vec<char>) -> (out: Option<Vec<char>>)
    ensures
        match out {
            Some(ext) => name_extension(name@) == Some(ext@),
            None => name_extension(name@) is None,
        },
{
    let mut end: usize = name.len();
    proof {
        assert(name@.take(end as int) == name@);
    }
    while end > 0 && name[end - 1] != '.'
        invariant
            end <= name.len(),
            last_dot(name@) == last_dot(name@.take(end as int)),
        decreases end,
    {
        proof {
            assert(name@.take(end as int).drop_last() == name@.take(end - 1));
        }
        end -= 1;
    }
    proof {
        if end > 0 {
            assert(name@.take(end as int).last() == '.');
        }
    }
    if end <= 1 {
        return None;
    }
    let mut ext: Vec<char> = Vec::new();
    let mut i: usize = end;
    while i < name.len()
        invariant
            end <= i <= name.len(),
            ext@ == name@.subrange(end as int, i as int),
        decreases name.len() - i,
    {
        ext.push(name[i]);
        i += 1;
    }
    proof {
        assert(name@.subrange(end as int, i as int) == name@.skip(end as int));
    }
    Some(ext)
}

/// The first `len` characters of `path`.
fn prefix_chars(path: &Vec<char>, len: usize) -> (out: Vec<char>)
    requires
        len <= path.len(),
    ensures
        out@ == path@.take(len as int),
{
    let mut out: Vec<char> = Vec::new();
    let mut i: usize = 0;
    while i < len
        invariant
            i <= len <= path.len(),
            out@ == path@.take(i as int),
        decreases len - i,
    {
        out.push(path[i]);
        proof {
            assert(path@.take(i + 1) == path@.take(i as int).push(path@[i as int]));
        }
        i += 1;
    }
    out
}

/// The length of `path.take(end)` once what names nothing at its end is
/// gone.
fn trimmed_len(path: &Vec<char>, end: usize) -> (len: usize)
    requires
        end <= path.len(),
    ensures
        len <= end,
        trim_tail(path@.take(end as int)) == path@.take(len as int),
{
    let mut len: usize = end;
    while len > 0 && (is_separator_char(path[len - 1]) || (len >= 2 && path[len - 1] == '.'
        && is_separator_char(path[len - 2])))
        invariant
            len <= end <= path.len(),
            trim_tail(path@.take(end as int)) == trim_tail(path@.take(len as int)),
        decreases len,
    {
        proof {
            let front = path@.take(len as int);
            assert(front.drop_last() == path@.take(len - 1));
            assert(front.last() == path@[len - 1]);
            if len >= 2 {
                assert(front[len - 2] == path@[len - 2]);
            }
        }
        len -= 1;
    }
    proof {
        let front = path@.take(len as int);
        if len > 0 {
            assert(front.last() == path@[len - 1]);
            if len >= 2 {
                assert(front[len - 2] == path@[len - 2]);
            }
        }
    }
    len
}

/// The directory that holds what `path` names.
pub(crate) fn parent_chars(path: &Vec<char>) -> (out: Option<Vec<char>>)
    ensures
        match out {
            Some(dir) => parent(path@) == Some(dir@),
            None => parent(path@) is None,
        },
{
    proof {
        assert(path@.take(path.len() as int) == path@);
    }
    let named = trimmed_len(path, path.len());
    if named == 0 {
        return None;
    }
    let mut head: usize = named;
    while head > 0 && !is_separator_char(path[head - 1])
        invariant
            head <= named <= path.len(),
            strip_name(path@.take(named as int)) == strip_name(path@.take(head as int)),
        decreases head,
    {
        proof {
            assert(path@.take(head as int).drop_last() == path@.take(head - 1));
        }
        head -= 1;
    }
    let dir = trimmed_len(path, head);
    if dir == 0 && head > 0 {
        proof {
            assert(path@.take(head as int).take(1) == path@.take(1));
        }
        Some(prefix_chars(path, 1))
    } else {
        Some(prefix_chars(path, dir))
    }
}

/// The failure of a path that lies outside its workspace.
pub(crate) fn outside(path: &str) -> (e: FsError)
    ensures
        e@ == outside_workspace(path@),
{
    FsError::with_detail(
        ErrorKind::InvalidPath,
        "Failed to get relative path: ",
        "prefix not found",
        path,
    )
}

/// The absolute path of `relative` under `root`.
pub fn to_absolute(root: &str, relative: &str) -> (out: String)
    ensures
        out@ == join(root@, relative@),
{
    text_of(&join_chars(&chars_of(root), &chars_of(relative)))
}

/// The path of `path` relative to `root`, in portable form. A path that
/// does not lie under `root` is refused as invalid.
pub fn to_relative(root: &str, path: &str) -> (out: Result<String, FsError>)
    ensures
        match out {
            Ok(rel) => relative_to(root@, path@) == Some(rel@) && is_portable_relative(rel@),
            Err(e) => relative_to(root@, path@) is None && e@ == outside_workspace(path@),
        },
{
    match relative_among(&parts_of(&chars_of(root)), &parts_of(&chars_of(path))) {
        Some(rel) => {
            proof {
                lemma_relative_is_portable(root@, path@);
            }
            Ok(text_of(&rel))
        },
        None => Err(outside(path)),
    }
}

/// The directory that holds what `path` names, where there is one.
pub fn parent_dir(path: &str) -> (out: Option<String>)
    ensures
        match out {
            Some(dir) => parent(path@) == Some(dir@),
            None => parent(path@) is None,
        },
{
    match parent_chars(&chars_of(path)) {
        Some(dir) => Some(text_of(&dir)),
        None => None,
    }
}

/// The name of the file or directory that `path` ends in, where it ends in
/// one.
pub fn base_name(path: &str) -> (out: Option<String>)
    ensures
        match out {
            Some(name) => file_name(path@) == Some(name@),
            None => file_name(path@) is None,
        },
{
    match name_among(&split_segments(&chars_of(path))) {
        Some(name) => Some(text_of(&name)),
        None => None,
    }
}

/// The extension of the file that `path` names, as it is written.
pub fn extension_of(path: &str) -> (out: Option<String>)
    ensures
        match out {
            Some(ext) => extension(path@) == Some(ext@),
            None => extension(path@) is None,
        },
{
    match name_among(&split_segments(&chars_of(path))) {
        Some(name) => match name_extension_chars(&name) {
            Some(ext) => Some(text_of(&ext)),
            None => None,
        },
        None => None,
    }
}

/// Whether a scan passes over `path` because one of its segments begins
/// with a dot.
pub fn is_hidden(path: &str) -> (hidden: bool)
    ensures
        hidden == has_hidden_segment(path@),
{
    let segs = split_segments(&chars_of(path));
    proof {
        assert(segment_views(segs@).skip(0) == segment_views(segs@));
    }
    hidden_from(&segs, 0)
}

} // verus!
