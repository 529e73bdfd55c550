//! What holds of a scan.

use crate::error::FsErrorView;
use crate::model::ImageFileView;
use crate::path::{
    any_hidden, extension, file_name, has_hidden_segment, is_absolute, is_dot,
    is_portable_relative, is_separator, join, relative_to, segments, segments_below,
    without_dots_at_end,
};
use crate::path_laws::{
    law_relative_round_trip, lemma_relative_is_portable, lemma_relative_segments,
    lemma_render_is_portable, lemma_segments_join, lemma_single_segment,
};
use crate::scan::{
    image_entries, image_record, is_image_entry, is_root_file, is_supported_extension,
    lacks_time, root_is_file, scan_yields, some_time_missing, FoundEntryView,
};
use crate::text::ascii_lowercase;
use crate::workspace::control_dir;
use vstd::prelude::*;

verus! {

/// The relative paths that the records carry.
pub open spec fn relative_paths(images: Seq<ImageFileView>) -> Set<Seq<char>> {
    Set::new(
        |p: Seq<char>| exists|k: int| 0 <= k < images.len() && (#[trigger] images[k]).relative_path == p,
    )
}

/// The paths, relative to `root`, of the entries that a scan lists.
pub open spec fn listed_paths(root: Seq<char>, entries: Seq<FoundEntryView>) -> Set<Seq<char>> {
    Set::new(
        |p: Seq<char>|
            exists|i: int|
                0 <= i < entries.len() && is_image_entry(root, #[trigger] entries[i]) && relative_to(
                    root,
                    entries[i].path,
                ) == Some(p),
    )
}

/// Two walks came upon the same entries, in whatever order.
pub open spec fn same_entries(first: Seq<FoundEntryView>, second: Seq<FoundEntryView>) -> bool {
    forall|e: FoundEntryView| first.contains(e) <==> second.contains(e)
}

/// Every image entry of `entries` stands in `image_entries(root, entries)`, and
/// nothing else does.
proof fn lemma_image_entries(root: Seq<char>, entries: Seq<FoundEntryView>)
    ensures
        forall|k: int|
            0 <= k < image_entries(root, entries).len() ==> is_image_entry(
                root,
                #[trigger] image_entries(root, entries)[k],
            ) && entries.contains(image_entries(root, entries)[k]),
        forall|i: int|
            0 <= i < entries.len() && is_image_entry(root, #[trigger] entries[i]) ==> image_entries(
                root,
                entries,
            ).contains(entries[i]),
{
    let listed = |e: FoundEntryView| is_image_entry(root, e);
    let found = entries.filter(listed);
    assert forall|k: int| 0 <= k < found.len() implies is_image_entry(root, #[trigger] found[k])
        && entries.contains(found[k]) by {
        entries.lemma_filter_pred(listed, k);
        assert(found.contains(found[k]));
        entries.lemma_filter_contains_rev(listed, found[k]);
    }
    assert forall|i: int|
        0 <= i < entries.len() && is_image_entry(root, #[trigger] entries[i]) implies found.contains(
        entries[i],
    ) by {
        entries.lemma_filter_contains(listed, i);
    }
}

/// Where the record of no entry needs a text in place of a time, that text
/// does not matter: the scan yields the same whatever text it is given.
pub proof fn law_unused_fallback(
    root: Seq<char>,
    root_exists: bool,
    entries: Seq<FoundEntryView>,
    given: Seq<char>,
    other: Seq<char>,
    outcome: Result<Seq<ImageFileView>, FsErrorView>,
)
    requires
        !some_time_missing(root, entries),
        scan_yields(root, root_exists, entries, given, outcome),
    ensures
        scan_yields(root, root_exists, entries, other, outcome),
{
    let found = image_entries(root, entries);
    lemma_image_entries(root, entries);
    assert forall|k: int| 0 <= k < found.len() implies image_record(root, #[trigger] found[k], given)
        == image_record(root, found[k], other) by {
        assert(entries.contains(found[k]));
        let i = choose|i: int| 0 <= i < entries.len() && entries[i] == found[k];
        assert(!lacks_time(root, entries[i]));
    }
    if root_exists && !root_is_file(root, entries) {
        if outcome is Err {
            let e = outcome->Err_0;
            let k = choose|k: int|
                {
                    &&& 0 <= k < found.len()
                    &&& image_record(root, #[trigger] found[k], given)
                        == Err::<ImageFileView, FsErrorView>(e)
                    &&& forall|j: int|
                        0 <= j < k ==> image_record(root, #[trigger] found[j], given) is Ok
                };
            assert(image_record(root, found[k], other) == Err::<ImageFileView, FsErrorView>(e));
            assert forall|j: int| 0 <= j < k implies image_record(
                root,
                #[trigger] found[j],
                other,
            ) is Ok by {
                assert(image_record(root, found[j], given) is Ok);
            }
        }
    }
}

/// The observations decide the outcome: a scan of the same root and the
/// same entries, in the same order, has one outcome only.
pub proof fn law_scan_is_determined(
    root: Seq<char>,
    root_exists: bool,
    entries: Seq<FoundEntryView>,
    fallback: Seq<char>,
    first: Result<Seq<ImageFileView>, FsErrorView>,
    second: Result<Seq<ImageFileView>, FsErrorView>,
)
    requires
        scan_yields(root, root_exists, entries, fallback, first),
        scan_yields(root, root_exists, entries, fallback, second),
    ensures
        first == second,
{
    let found = image_entries(root, entries);
    match (first, second) {
        (Ok(a), Ok(b)) => {
            assert forall|k: int| 0 <= k < a.len() implies a[k] == b[k] by {
                assert(image_record(root, found[k], fallback) == Ok::<ImageFileView, FsErrorView>(
                    a[k],
                ));
            }
            assert(a =~= b);
        },
        (Ok(a), Err(e)) => {
            let k = choose|k: int|
                0 <= k < found.len() && image_record(root, #[trigger] found[k], fallback) == Err::<
                    ImageFileView,
                    FsErrorView,
                >(e);
            assert(image_record(root, found[k], fallback) is Ok);
        },
        (Err(e), Ok(b)) => {
            let k = choose|k: int|
                0 <= k < found.len() && image_record(root, #[trigger] found[k], fallback) == Err::<
                    ImageFileView,
                    FsErrorView,
                >(e);
            assert(image_record(root, found[k], fallback) is Ok);
        },
        (Err(e), Err(f)) => {
            if root_exists {
                let k = choose|k: int|
                    {
                        &&& 0 <= k < found.len()
                        &&& image_record(root, #[trigger] found[k], fallback) == Err::<
                            ImageFileView,
                            FsErrorView,
                        >(e)
                        &&& forall|j: int|
                            0 <= j < k ==> image_record(root, #[trigger] found[j], fallback) is Ok
                    };
                let l = choose|l: int|
                    {
                        &&& 0 <= l < found.len()
                        &&& image_record(root, #[trigger] found[l], fallback) == Err::<
                            ImageFileView,
                            FsErrorView,
                        >(f)
                        &&& forall|j: int|
                            0 <= j < l ==> image_record(root, #[trigger] found[j], fallback) is Ok
                    };
                if k < l {
                    assert(image_record(root, found[k], fallback) is Ok);
                } else if l < k {
                    assert(image_record(root, found[l], fallback) is Ok);
                }
            }
        },
    }
}

/// A scan that succeeds lists exactly the image entries of the walk: the
/// relative paths of its records are those of the regular files with a
/// supported extension, none of whose segments below the root begins with a
/// dot, at whatever depth they lie.
pub proof fn law_scan_lists_exactly(
    root: Seq<char>,
    entries: Seq<FoundEntryView>,
    fallback: Seq<char>,
    images: Seq<ImageFileView>,
)
    requires
        scan_yields(root, true, entries, fallback, Ok(images)),
    ensures
        relative_paths(images) == listed_paths(root, entries),
        forall|k: int|
            0 <= k < images.len() ==> is_portable_relative(#[trigger] images[k].relative_path),
{
    let found = image_entries(root, entries);
    lemma_image_entries(root, entries);
    assert forall|p: Seq<char>| relative_paths(images).contains(p) implies listed_paths(
        root,
        entries,
    ).contains(p) by {
        let k = choose|k: int| 0 <= k < images.len() && (#[trigger] images[k]).relative_path == p;
        assert(image_record(root, found[k], fallback) == Ok::<ImageFileView, FsErrorView>(
            images[k],
        ));
        assert(entries.contains(found[k]));
        let i = choose|i: int| 0 <= i < entries.len() && entries[i] == found[k];
        assert(is_image_entry(root, entries[i]));
    }
    assert forall|p: Seq<char>| listed_paths(root, entries).contains(p) implies relative_paths(
        images,
    ).contains(p) by {
        let i = choose|i: int|
            0 <= i < entries.len() && is_image_entry(root, #[trigger] entries[i]) && relative_to(
                root,
                entries[i].path,
            ) == Some(p);
        assert(found.contains(entries[i]));
        let k = choose|k: int| 0 <= k < found.len() && found[k] == entries[i];
        assert(image_record(root, found[k], fallback) == Ok::<ImageFileView, FsErrorView>(
            images[k],
        ));
        assert(images[k].relative_path == p);
    }
    assert(relative_paths(images) =~= listed_paths(root, entries));
    assert forall|k: int| 0 <= k < images.len() implies is_portable_relative(
        #[trigger] images[k].relative_path,
    ) by {
        assert(image_record(root, found[k], fallback) == Ok::<ImageFileView, FsErrorView>(
            images[k],
        ));
        lemma_relative_is_portable(root, found[k].path);
    }
}

/// A scan does not depend on the order of the walk, nor on the clock: two
/// scans of a directory that has not changed, whose walks came upon the same
/// entries in whatever order, and whatever text stood for a missing time in
/// each, succeed or fail together, and where they succeed they return the
/// same set of relative paths.
pub proof fn law_scan_ignores_order(
    root: Seq<char>,
    root_exists: bool,
    first_entries: Seq<FoundEntryView>,
    second_entries: Seq<FoundEntryView>,
    first_fallback: Seq<char>,
    second_fallback: Seq<char>,
    first: Result<Seq<ImageFileView>, FsErrorView>,
    second: Result<Seq<ImageFileView>, FsErrorView>,
)
    requires
        same_entries(first_entries, second_entries),
        scan_yields(root, root_exists, first_entries, first_fallback, first),
        scan_yields(root, root_exists, second_entries, second_fallback, second),
    ensures
        first is Ok <==> second is Ok,
        first is Ok ==> relative_paths(first->Ok_0) == relative_paths(second->Ok_0),
{
    lemma_fails_together(
        root,
        root_exists,
        first_entries,
        second_entries,
        first_fallback,
        second_fallback,
        first,
        second,
    );
    lemma_fails_together(
        root,
        root_exists,
        second_entries,
        first_entries,
        second_fallback,
        first_fallback,
        second,
        first,
    );
    if first is Ok {
        law_scan_lists_exactly(root, first_entries, first_fallback, first->Ok_0);
        law_scan_lists_exactly(root, second_entries, second_fallback, second->Ok_0);
        lemma_listed_paths_of_same_entries(root, first_entries, second_entries);
        lemma_listed_paths_of_same_entries(root, second_entries, first_entries);
        assert(listed_paths(root, first_entries) =~= listed_paths(root, second_entries));
    }
}

/// Where one walk's scan succeeds, so does that of a walk that came upon
/// the same entries.
proof fn lemma_fails_together(
    root: Seq<char>,
    root_exists: bool,
    first_entries: Seq<FoundEntryView>,
    second_entries: Seq<FoundEntryView>,
    first_fallback: Seq<char>,
    second_fallback: Seq<char>,
    first: Result<Seq<ImageFileView>, FsErrorView>,
    second: Result<Seq<ImageFileView>, FsErrorView>,
)
    requires
        same_entries(first_entries, second_entries),
        scan_yields(root, root_exists, first_entries, first_fallback, first),
        scan_yields(root, root_exists, second_entries, second_fallback, second),
    ensures
        first is Ok ==> second is Ok,
{
    if first is Ok && second is Err {
        let images = first->Ok_0;
        let e = second->Err_0;
        let found = image_entries(root, first_entries);
        let other = image_entries(root, second_entries);
        lemma_image_entries(root, first_entries);
        lemma_image_entries(root, second_entries);
        lemma_same_root_file(root, second_entries, first_entries);
        let k = choose|k: int|
            0 <= k < other.len() && image_record(root, #[trigger] other[k], second_fallback)
                == Err::<ImageFileView, FsErrorView>(e);
        assert(second_entries.contains(other[k]));
        assert(first_entries.contains(other[k]));
        let i = choose|i: int| 0 <= i < first_entries.len() && first_entries[i] == other[k];
        assert(is_image_entry(root, first_entries[i]));
        assert(found.contains(first_entries[i]));
        let j = choose|j: int| 0 <= j < found.len() && found[j] == first_entries[i];
        assert(image_record(root, found[j], first_fallback) is Ok);
        assert(image_record(root, found[j], second_fallback) is Ok);
    }
}

/// Where one walk met the root as a regular file, so did a walk that came
/// upon the same entries.
proof fn lemma_same_root_file(
    root: Seq<char>,
    first_entries: Seq<FoundEntryView>,
    second_entries: Seq<FoundEntryView>,
)
    requires
        same_entries(first_entries, second_entries),
    ensures
        root_is_file(root, first_entries) ==> root_is_file(root, second_entries),
{
    if root_is_file(root, first_entries) {
        let i = choose|i: int|
            0 <= i < first_entries.len() && is_root_file(root, #[trigger] first_entries[i]);
        assert(first_entries.contains(first_entries[i]));
        assert(second_entries.contains(first_entries[i]));
        let j = choose|j: int| 0 <= j < second_entries.len() && second_entries[j] == first_entries[i];
        assert(is_root_file(root, second_entries[j]));
    }
}

/// What one walk lists, a walk that came upon the same entries lists too.
proof fn lemma_listed_paths_of_same_entries(
    root: Seq<char>,
    first_entries: Seq<FoundEntryView>,
    second_entries: Seq<FoundEntryView>,
)
    requires
        same_entries(first_entries, second_entries),
    ensures
        listed_paths(root, first_entries).subset_of(listed_paths(root, second_entries)),
{
    assert forall|p: Seq<char>| listed_paths(root, first_entries).contains(p) implies listed_paths(
        root,
        second_entries,
    ).contains(p) by {
        let i = choose|i: int|
            0 <= i < first_entries.len() && is_image_entry(root, #[trigger] first_entries[i])
                && relative_to(root, first_entries[i].path) == Some(p);
        assert(first_entries.contains(first_entries[i]));
        assert(second_entries.contains(first_entries[i]));
        let j = choose|j: int| 0 <= j < second_entries.len() && second_entries[j] == first_entries[i];
        assert(is_image_entry(root, second_entries[j]));
    }
}

/// Whether a relative path is that of an image that scans list: none of its
/// segments begins with a dot, and its extension is a supported one.
pub open spec fn is_image_path(relative: Seq<char>) -> bool {
    &&& !has_hidden_segment(relative)
    &&& extension(relative) matches Some(ext) && is_supported_extension(ext)
}

/// Whether a scan lists a regular file below the root is told by the
/// relative path of the file alone.
pub proof fn lemma_listed_by_relative_path(root: Seq<char>, entry: FoundEntryView)
    requires
        entry.is_file,
        !is_root_file(root, entry),
        relative_to(root, entry.path) is Some,
    ensures
        is_image_entry(root, entry) <==> is_image_path(relative_to(root, entry.path)->0),
{
    let relative = relative_to(root, entry.path)->0;
    let whole = segments(entry.path);
    let rest = segments_below(root, entry.path);
    lemma_relative_segments(root, entry.path);
    if rest.len() == 0 {
        assert(whole =~= segments(root));
    } else if !any_hidden(rest) {
        let last = rest.last();
        assert(last == whole.last());
        assert(!is_dot(last)) by {
            assert(rest[rest.len() - 1].len() > 0);
            if is_dot(last) {
                assert(last[0] == '.');
            }
        }
        assert(without_dots_at_end(whole) == whole);
        assert(without_dots_at_end(rest) == rest);
    }
}

/// A scan that succeeds lists exactly the regular files below the root whose
/// relative path has a supported extension and no segment that begins with
/// a dot, at whatever depth they lie and wherever the root itself lies.
pub proof fn law_scan_lists_by_relative_path(
    root: Seq<char>,
    entries: Seq<FoundEntryView>,
    fallback: Seq<char>,
    images: Seq<ImageFileView>,
)
    requires
        scan_yields(root, true, entries, fallback, Ok(images)),
    ensures
        relative_paths(images) == Set::new(
            |p: Seq<char>|
                exists|i: int|
                    0 <= i < entries.len() && (#[trigger] entries[i]).is_file && relative_to(
                        root,
                        entries[i].path,
                    ) == Some(p) && is_image_path(p),
        ),
{
    law_scan_lists_exactly(root, entries, fallback, images);
    let told = Set::new(
        |p: Seq<char>|
            exists|i: int|
                0 <= i < entries.len() && (#[trigger] entries[i]).is_file && relative_to(
                    root,
                    entries[i].path,
                ) == Some(p) && is_image_path(p),
    );
    assert forall|p: Seq<char>| listed_paths(root, entries).contains(p) <==> told.contains(p) by {
        if listed_paths(root, entries).contains(p) {
            let i = choose|i: int|
                0 <= i < entries.len() && is_image_entry(root, #[trigger] entries[i])
                    && relative_to(root, entries[i].path) == Some(p);
            assert(!is_root_file(root, entries[i]));
            lemma_listed_by_relative_path(root, entries[i]);
        }
        if told.contains(p) {
            let i = choose|i: int|
                0 <= i < entries.len() && (#[trigger] entries[i]).is_file && relative_to(
                    root,
                    entries[i].path,
                ) == Some(p) && is_image_path(p);
            assert(!is_root_file(root, entries[i]));
            lemma_listed_by_relative_path(root, entries[i]);
        }
    }
    assert(listed_paths(root, entries) =~= told);
}

/// The round trip of what a scan returns: the relative path of each
/// record, made absolute under the root of the scan and taken relative to it
/// again, comes back unchanged.
pub proof fn law_scanned_paths_round_trip(
    root: Seq<char>,
    entries: Seq<FoundEntryView>,
    fallback: Seq<char>,
    images: Seq<ImageFileView>,
    k: int,
)
    requires
        scan_yields(root, true, entries, fallback, Ok(images)),
        0 <= k < images.len(),
    ensures
        relative_to(root, join(root, images[k].relative_path)) == Some(images[k].relative_path),
{
    law_scan_lists_exactly(root, entries, fallback, images);
    law_relative_round_trip(root, images[k].relative_path);
}

/// A record hangs together: where its relative path is not empty, its name
/// is the file name of that path, and its extension is the extension of that
/// path in lower case.
pub proof fn law_record_is_consistent(
    root: Seq<char>,
    entry: FoundEntryView,
    fallback: Seq<char>,
    image: ImageFileView,
)
    requires
        is_image_entry(root, entry),
        image_record(root, entry, fallback) == Ok::<ImageFileView, FsErrorView>(image),
        image.relative_path.len() > 0,
    ensures
        file_name(image.relative_path) == Some(image.name),
        extension(image.relative_path) is Some,
        image.extension == ascii_lowercase(extension(image.relative_path)->0),
{
    let rest = segments_below(root, entry.path);
    lemma_relative_segments(root, entry.path);
    assert(rest.len() > 0);
    assert(rest.last() == segments(entry.path).last());
}

/// The control directory of a workspace is hidden from scans: no scan of
/// the workspace lists the control directory or anything that lies below it,
/// whatever it is and whatever it is called.
pub proof fn law_control_dir_is_hidden(root: Seq<char>, below: Seq<char>, entry: FoundEntryView)
    requires
        !is_absolute(below),
        entry.path == control_dir(root) || entry.path == join(control_dir(root), below),
    ensures
        !is_image_entry(root, entry),
{
    let name = ".im_settings"@;
    reveal_strlit(".im_settings");
    assert(name.len() == 12);
    assert(name[0] == '.');
    assert forall|i: int| 0 <= i < name.len() implies !is_separator(name[i]) by {
        assert(name =~= seq!['.', 'i', 'm', '_', 's', 'e', 't', 't', 'i', 'n', 'g', 's']);
    }
    lemma_single_segment(name);
    lemma_segments_join(root, name);
    lemma_segments_join(control_dir(root), below);
    let k = segments(root).len() as int;
    assert(segments(control_dir(root))[k] == name);
    assert(segments(join(control_dir(root), below))[k] == name);
    let lower = segments_below(root, entry.path);
    assert(lower[0] == name);
    assert(lower[0].len() > 0 && lower[0][0] == '.');
}

/// Every record names a file below the root: in a scan that succeeds, no
/// relative path is empty.
pub proof fn law_records_lie_below_root(
    root: Seq<char>,
    entries: Seq<FoundEntryView>,
    fallback: Seq<char>,
    images: Seq<ImageFileView>,
    k: int,
)
    requires
        scan_yields(root, true, entries, fallback, Ok(images)),
        0 <= k < images.len(),
    ensures
        images[k].relative_path.len() > 0,
{
    let found = image_entries(root, entries);
    lemma_image_entries(root, entries);
    let entry = found[k];
    assert(image_record(root, entry, fallback) == Ok::<ImageFileView, FsErrorView>(images[k]));
    assert(entries.contains(entry));
    let i = choose|i: int| 0 <= i < entries.len() && entries[i] == entry;
    assert(!is_root_file(root, entries[i]));
    let rest = segments_below(root, entry.path);
    lemma_relative_segments(root, entry.path);
    lemma_render_is_portable(rest);
    if rest.len() == 0 {
        assert(segments(entry.path) =~= segments(root));
    }
}

} // verus!
