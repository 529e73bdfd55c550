//! The image scanner: from what a walk of the workspace tree found to the
//! records of its image files.

use crate::error::{failure, ErrorKind, FsError, FsErrorView};
use crate::model::{ImageFile, ImageFileView};
use crate::path::{
    any_hidden, extension, file_name, hidden_from, name_among, name_extension_chars, outside,
    outside_workspace, parts, parts_of, relative_among, relative_to, same_parts, segments_below,
    Parts,
};
use crate::text::{ascii_lowercase, chars_of, same_chars, text_of, to_ascii_lowercase};
use crate::scan_laws::law_unused_fallback;
use crate::time::{
    clock_text, current_time_text, render_time, rendered, text_or_fallback, time_text, Timestamp,
};
use crate::workspace::{no_directory, not_a_directory};
use vstd::prelude::*;

verus! {

/// What the file system tells of one file.
#[derive(Clone, Copy, Debug, PartialEq, Eq)]
pub struct FileMetadata {
    /// Size in bytes.
    pub size: u64,
    /// Creation time, where the platform keeps one.
    pub created: Option<Timestamp>,
    /// Modification time, where the platform keeps one.
    pub modified: Option<Timestamp>,
}

/// One entry that a walk of the workspace tree came upon.
#[derive(Debug, PartialEq, Eq)]
pub struct FoundEntry {
    /// The path of the entry, the workspace root included.
    pub path: String,
    /// Whether the entry is a regular file.
    pub is_file: bool,
    /// The metadata of the entry, or what the file system said when they
    /// could not be read.
    pub metadata: Result<FileMetadata, String>,
}

/// An entry as a mathematical value.
pub struct FoundEntryView {
    pub path: Seq<char>,
    pub is_file: bool,
    pub metadata: Result<FileMetadata, Seq<char>>,
}

impl View for FoundEntry {
    type V = FoundEntryView;

    open spec fn view(&self) -> FoundEntryView {
        FoundEntryView {
            path: self.path@,
            is_file: self.is_file,
            metadata: match self.metadata {
                Ok(m) => Ok(m),
                Err(detail) => Err(detail@),
            },
        }
    }
}

/// The entries as mathematical values.
pub open spec fn entry_views(entries: Seq<FoundEntry>) -> Seq<FoundEntryView> {
    entries.map_values(|e: FoundEntry| e@)
}

/// The records as mathematical values.
pub open spec fn image_views(images: Seq<ImageFile>) -> Seq<ImageFileView> {
    images.map_values(|i: ImageFile| i@)
}

/// What a scan returned, as a mathematical value.
pub open spec fn outcome_view(
    out: Result<Vec<ImageFile>, FsError>,
) -> Result<Seq<ImageFileView>, FsErrorView> {
    match out {
        Ok(images) => Ok(image_views(images@)),
        Err(e) => Err(e@),
    }
}

/// The extensions of the image formats that a scan lists, in lower case.
pub open spec fn supported_extensions() -> Seq<Seq<char>> {
    seq!["jpg"@, "jpeg"@, "png"@, "gif"@, "bmp"@, "webp"@, "tiff"@, "svg"@]
}

/// Whether `ext` is the extension of a supported format, in any mix of
/// upper and lower case.
pub open spec fn is_supported_extension(ext: Seq<char>) -> bool {
    supported_extensions().contains(ascii_lowercase(ext))
}

/// Whether a scan of `root` lists the entry: a regular file with a supported
/// extension, none of whose segments below the root begins with a dot. The
/// segments of the root itself do not count: a workspace may lie in a hidden
/// directory.
pub open spec fn is_image_entry(root: Seq<char>, entry: FoundEntryView) -> bool {
    &&& entry.is_file
    &&& !any_hidden(segments_below(root, entry.path))
    &&& extension(entry.path) matches Some(ext) && is_supported_extension(ext)
}

/// The entries that a scan of `root` lists, in the order of the walk.
pub open spec fn image_entries(
    root: Seq<char>,
    entries: Seq<FoundEntryView>,
) -> Seq<FoundEntryView> {
    entries.filter(|e: FoundEntryView| is_image_entry(root, e))
}

/// Whether the entry is the root itself, met as a regular file.
pub open spec fn is_root_file(root: Seq<char>, entry: FoundEntryView) -> bool {
    entry.is_file && parts(entry.path) == parts(root)
}

/// Whether the walk met the root itself as a regular file: then the root is
/// no directory, and there is nothing below it to scan.
pub open spec fn root_is_file(root: Seq<char>, entries: Seq<FoundEntryView>) -> bool {
    exists|i: int| 0 <= i < entries.len() && is_root_file(root, #[trigger] entries[i])
}

/// Whether the record of the entry needs a text in place of a time: an image
/// entry whose metadata were read, but hold a time that is unknown or beyond
/// rendering.
pub open spec fn lacks_time(root: Seq<char>, entry: FoundEntryView) -> bool {
    &&& is_image_entry(root, entry)
    &&& entry.metadata matches Ok(metadata) && (rendered(metadata.created) is None || rendered(
        metadata.modified,
    ) is None)
}

/// Whether the record of some entry needs a text in place of a time.
pub open spec fn some_time_missing(root: Seq<char>, entries: Seq<FoundEntryView>) -> bool {
    exists|i: int| 0 <= i < entries.len() && lacks_time(root, #[trigger] entries[i])
}

/// The error of a scan whose workspace root does not exist.
pub open spec fn workspace_missing(root: Seq<char>) -> FsErrorView {
    failure(
        ErrorKind::WorkspaceNotFound,
        "Workspace directory does not exist"@,
        Seq::empty(),
        root,
    )
}

/// The error of an image file whose metadata could not be read.
pub open spec fn metadata_unreadable(path: Seq<char>, detail: Seq<char>) -> FsErrorView {
    failure(ErrorKind::IoFailure, "Failed to read file metadata: "@, detail, path)
}

/// The name that a record carries: the file name of the path, or nothing.
pub open spec fn record_name(path: Seq<char>) -> Seq<char> {
    match file_name(path) {
        Some(name) => name,
        None => Seq::empty(),
    }
}

/// The record of an image entry under `root`. A time that the file system
/// does not keep, or that cannot be rendered, is replaced by `fallback`.
pub open spec fn image_record(
    root: Seq<char>,
    entry: FoundEntryView,
    fallback: Seq<char>,
) -> Result<ImageFileView, FsErrorView> {
    match relative_to(root, entry.path) {
        None => Err(outside_workspace(entry.path)),
        Some(relative) => match entry.metadata {
            Err(detail) => Err(metadata_unreadable(entry.path, detail)),
            Ok(metadata) => Ok(
                ImageFileView {
                    name: record_name(entry.path),
                    relative_path: relative,
                    file_size: metadata.size,
                    created_at: text_or_fallback(rendered(metadata.created), fallback),
                    modified_at: text_or_fallback(rendered(metadata.modified), fallback),
                    extension: ascii_lowercase(extension(entry.path).unwrap()),
                },
            ),
        },
    }
}

/// What a scan of `entries` yields. Where the root is a directory and every
/// image entry has a record, it yields those records, one for each image
/// entry and in the order of the walk. Where the root does not exist it
/// fails with `WorkspaceNotFound`, and where the walk met the root as a
/// regular file, with `NotADirectory`; otherwise it fails with the error of
/// the first image entry that has no record.
pub open spec fn scan_yields(
    root: Seq<char>,
    root_exists: bool,
    entries: Seq<FoundEntryView>,
    fallback: Seq<char>,
    outcome: Result<Seq<ImageFileView>, FsErrorView>,
) -> bool {
    let found = image_entries(root, entries);
    match outcome {
        Ok(images) => {
            &&& root_exists
            &&& !root_is_file(root, entries)
            &&& images.len() == found.len()
            &&& forall|k: int|
                0 <= k < found.len() ==> image_record(root, #[trigger] found[k], fallback)
                    == Ok::<ImageFileView, FsErrorView>(images[k])
        },
        Err(e) => if !root_exists {
            e == workspace_missing(root)
        } else if root_is_file(root, entries) {
            e == not_a_directory(root)
        } else {
            exists|k: int|
                {
                    &&& 0 <= k < found.len()
                    &&& image_record(root, #[trigger] found[k], fallback)
                        == Err::<ImageFileView, FsErrorView>(e)
                    &&& forall|j: int|
                        0 <= j < k ==> image_record(root, #[trigger] found[j], fallback) is Ok
                }
        },
    }
}

/// Whether `chars` spell `text`.
fn spells(chars: &Vec<char>, text: &str) -> (yes: bool)
    ensures
        yes == (chars@ == text@),
{
    same_chars(chars, &chars_of(text))
}

/// Whether `lower` is one of the supported extensions.
fn is_listed(lower: &Vec<char>) -> (yes: bool)
    ensures
        yes == supported_extensions().contains(lower@),
{
    let ghost list = supported_extensions();
    let yes = spells(lower, "jpg")
        || spells(lower, "jpeg")
        || spells(lower, "png")
        || spells(lower, "gif")
        || spells(lower, "bmp")
        || spells(lower, "webp")
        || spells(lower, "tiff")
        || spells(lower, "svg");
    proof {
        assert(list.len() == 8);
        assert(list[0] == "jpg"@ && list[1] == "jpeg"@ && list[2] == "png"@ && list[3] == "gif"@);
        assert(list[4] == "bmp"@ && list[5] == "webp"@ && list[6] == "tiff"@ && list[7] == "svg"@);
        if !yes {
            assert forall|k: int| 0 <= k < list.len() implies list[k] != lower@ by {}
        }
    }
    yes
}

/// Whether `ext` is the extension of a supported image format.
pub fn supports_extension(ext: &str) -> (yes: bool)
    ensures
        yes == is_supported_extension(ext@),
{
    is_listed(&to_ascii_lowercase(&chars_of(ext)))
}

/// The name of an image entry and its extension in lower case; none for an
/// entry that a scan does not list.
fn image_name(
    root: &Parts,
    path: &Parts,
    entry: &FoundEntry,
    Ghost(root_path): Ghost<Seq<char>>,
) -> (out: Option<(Vec<char>, Vec<char>)>)
    requires
        root@ == parts(root_path),
        path@ == parts(entry.path@),
    ensures
        out is Some == is_image_entry(root_path, entry@),
        out matches Some((name, lower)) ==> name@ == record_name(entry@.path) && lower@
            == ascii_lowercase(extension(entry@.path).unwrap()),
{
    if !entry.is_file {
        return None;
    }
    let depth = root.segments.len();
    if depth <= path.segments.len() && hidden_from(&path.segments, depth) {
        return None;
    }
    let name = match name_among(&path.segments) {
        Some(name) => name,
        None => {
            return None;
        },
    };
    match name_extension_chars(&name) {
        None => None,
        Some(ext) => {
            let lower = to_ascii_lowercase(&ext);
            if is_listed(&lower) {
                Some((name, lower))
            } else {
                None
            }
        },
    }
}

/// Whether the walk met the root itself as a regular file.
fn meets_root_file(
    root: &Parts,
    entries: &Vec<FoundEntry>,
    Ghost(root_path): Ghost<Seq<char>>,
) -> (met: bool)
    requires
        root@ == parts(root_path),
    ensures
        met == root_is_file(root_path, entry_views(entries@)),
{
    let ghost views = entry_views(entries@);
    let mut i: usize = 0;
    while i < entries.len()
        invariant
            i <= entries.len(),
            root@ == parts(root_path),
            views == entry_views(entries@),
            forall|j: int| 0 <= j < i ==> !is_root_file(root_path, #[trigger] views[j]),
        decreases entries.len() - i,
    {
        let entry = &entries[i];
        if entry.is_file {
            let path = parts_of(&chars_of(entry.path.as_str()));
            if same_parts(&path, root) {
                proof {
                    assert(is_root_file(root_path, views[i as int]));
                }
                return true;
            }
        }
        i += 1;
    }
    false
}

/// Whether the record of some entry needs a text in place of a time.
fn misses_time(
    root: &Parts,
    entries: &Vec<FoundEntry>,
    Ghost(root_path): Ghost<Seq<char>>,
) -> (missing: bool)
    requires
        root@ == parts(root_path),
    ensures
        missing == some_time_missing(root_path, entry_views(entries@)),
{
    let ghost views = entry_views(entries@);
    let mut i: usize = 0;
    while i < entries.len()
        invariant
            i <= entries.len(),
            root@ == parts(root_path),
            views == entry_views(entries@),
            forall|j: int| 0 <= j < i ==> !lacks_time(root_path, #[trigger] views[j]),
        decreases entries.len() - i,
    {
        let entry = &entries[i];
        match &entry.metadata {
            Ok(metadata) => {
                let path = parts_of(&chars_of(entry.path.as_str()));
                if image_name(root, &path, entry, Ghost(root_path)).is_some() {
                    if render_time(metadata.created).is_none()
                        || render_time(metadata.modified).is_none() {
                        proof {
                            assert(lacks_time(root_path, views[i as int]));
                        }
                        return true;
                    }
                }
            },
            Err(_) => {},
        }
        i += 1;
    }
    false
}

/// Builds the record of an image entry.
fn record_entry(
    root: &Parts,
    path: &Parts,
    name: Vec<char>,
    lower: Vec<char>,
    entry: &FoundEntry,
    fallback: &str,
    Ghost(root_path): Ghost<Seq<char>>,
) -> (out: Result<ImageFile, FsError>)
    requires
        root@ == parts(root_path),
        path@ == parts(entry.path@),
        is_image_entry(root_path, entry@),
        name@ == record_name(entry@.path),
        lower@ == ascii_lowercase(extension(entry@.path).unwrap()),
    ensures
        match out {
            Ok(image) => image_record(root_path, entry@, fallback@)
                == Ok::<ImageFileView, FsErrorView>(image@),
            Err(e) => image_record(root_path, entry@, fallback@)
                == Err::<ImageFileView, FsErrorView>(e@),
        },
{
    let relative = match relative_among(root, path) {
        Some(relative) => relative,
        None => {
            return Err(outside(entry.path.as_str()));
        },
    };
    match &entry.metadata {
        Err(detail) => Err(
            FsError::with_detail(
                ErrorKind::IoFailure,
                "Failed to read file metadata: ",
                detail.as_str(),
                entry.path.as_str(),
            ),
        ),
        Ok(metadata) => Ok(
            ImageFile {
                name: text_of(&name),
                relative_path: text_of(&relative),
                file_size: metadata.size,
                created_at: time_text(render_time(metadata.created), fallback),
                modified_at: time_text(render_time(metadata.modified), fallback),
                extension: text_of(&lower),
            },
        ),
    }
}

/// Lists the image files of a workspace from what a walk of its tree found.
///
/// `workspace_exists` tells whether the root was there when the walk began,
/// `entries` holds every entry the walk came upon, and `fallback_time` is
/// the text that stands for a time the file system does not keep.
pub fn scan_images_at(
    workspace_path: &str,
    workspace_exists: bool,
    entries: &Vec<FoundEntry>,
    fallback_time: &str,
) -> (out: Result<Vec<ImageFile>, FsError>)
    ensures
        scan_yields(
            workspace_path@,
            workspace_exists,
            entry_views(entries@),
            fallback_time@,
            outcome_view(out),
        ),
{
    if !workspace_exists {
        return Err(
            FsError::new(
                ErrorKind::WorkspaceNotFound,
                "Workspace directory does not exist",
                workspace_path,
            ),
        );
    }
    let root = parts_of(&chars_of(workspace_path));
    if meets_root_file(&root, entries, Ghost(workspace_path@)) {
        return Err(no_directory(workspace_path));
    }
    let ghost views = entry_views(entries@);
    let ghost listed = |e: FoundEntryView| is_image_entry(workspace_path@, e);
    let mut images: Vec<ImageFile> = Vec::new();
    let mut i: usize = 0;
    while i < entries.len()
        invariant
            i <= entries.len(),
            workspace_exists,
            !root_is_file(workspace_path@, entry_views(entries@)),
            root@ == parts(workspace_path@),
            views == entry_views(entries@),
            listed == |e: FoundEntryView| is_image_entry(workspace_path@, e),
            images.len() == views.take(i as int).filter(listed).len(),
            forall|k: int|
                0 <= k < images.len() ==> image_record(
                    workspace_path@,
                    #[trigger] views.take(i as int).filter(listed)[k],
                    fallback_time@,
                ) == Ok::<ImageFileView, FsErrorView>(images[k]@),
        decreases entries.len() - i,
    {
        let entry = &entries[i];
        let path = parts_of(&chars_of(entry.path.as_str()));
        let ghost before = views.take(i as int).filter(listed);
        let ghost after = views.take(i + 1).filter(listed);
        proof {
            assert(views.take(i + 1).drop_last() == views.take(i as int));
            assert(views.take(i + 1).last() == entry@);
            reveal(Seq::filter);
        }
        match image_name(&root, &path, entry, Ghost(workspace_path@)) {
            None => {
                assert(after == before);
            },
            Some((name, lower)) => {
                assert(after == before.push(entry@));
                match record_entry(
                    &root,
                    &path,
                    name,
                    lower,
                    entry,
                    fallback_time,
                    Ghost(workspace_path@),
                ) {
                    Ok(image) => {
                        images.push(image);
                    },
                    Err(e) => {
                        proof {
                            let rest = views.skip(i + 1);
                            assert(views.take(i + 1) + rest == views);
                            Seq::filter_distributes_over_add(views.take(i + 1), rest, listed);
                            let found = image_entries(workspace_path@, views);
                            let k = before.len() as int;
                            assert(found == after + rest.filter(listed));
                            assert(found[k] == entry@);
                            assert forall|j: int| 0 <= j < k implies image_record(
                                workspace_path@,
                                #[trigger] found[j],
                                fallback_time@,
                            ) is Ok by {
                                assert(found[j] == before[j]);
                            }
                        }
                        return Err(e);
                    },
                }
            },
        }
        i += 1;
    }
    proof {
        assert(views.take(i as int) == views);
        let found = image_entries(workspace_path@, views);
        assert(image_views(images@).len() == found.len());
        assert forall|k: int| 0 <= k < found.len() implies image_record(
            workspace_path@,
            #[trigger] found[k],
            fallback_time@,
        ) == Ok::<ImageFileView, FsErrorView>(image_views(images@)[k]) by {}
    }
    Ok(images)
}

/// Lists the image files of a workspace from what a walk of its tree found,
/// with the current time standing for each time the file system does not
/// keep. The clock is read only where the record of some entry needs it, and
/// then once, so that one text stands for all such times; whatever the clock
/// shows, the scan is the one that `scan_images_at` makes with its text.
pub fn scan_images(
    workspace_path: &str,
    workspace_exists: bool,
    entries: &Vec<FoundEntry>,
) -> (out: Result<Vec<ImageFile>, FsError>)
    ensures
        exists|now: Timestamp|
            scan_yields(
                workspace_path@,
                workspace_exists,
                entry_views(entries@),
                clock_text(now),
                outcome_view(out),
            ),
{
    let root = parts_of(&chars_of(workspace_path));
    if misses_time(&root, entries, Ghost(workspace_path@)) {
        let now = current_time_text();
        scan_images_at(workspace_path, workspace_exists, entries, now.as_str())
    } else {
        let out = scan_images_at(workspace_path, workspace_exists, entries, "");
        proof {
            let unread = Timestamp { secs: 0, nanos: 0 };
            law_unused_fallback(
                workspace_path@,
                workspace_exists,
                entry_views(entries@),
                ""@,
                clock_text(unread),
                outcome_view(out),
            );
        }
        out
    }
}

} // verus!
