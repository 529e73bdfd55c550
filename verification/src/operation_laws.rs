//! What holds of the operations, however the file system answers.

use crate::error::{ErrorKind, FsErrorView};
use crate::model::{MoveImageRequestView, RenameImageRequestView};
use crate::mutate::{
    delete_begins, delete_resumes, file_missing, move_begins, move_resumes, no_parent,
    rename_begins, rename_dir, rename_resumes, renamed, source_missing, target_exists,
    DeleteOperationView, MoveOperationView, RenameOperationView,
};
use crate::operation::{only_looked, trace, EffectView, ReplyView, Trace};
use crate::path::{is_portable_relative, is_separator, join, parent, render, segments};
use crate::path_laws::{
    has_no_dot_segment, lemma_parent_segments, lemma_portable_is_rendered, lemma_segments_join,
    lemma_single_segment,
};
use crate::workspace::{
    bootstrap_begins, bootstrap_resumes, control_db, control_dir, not_a_directory, root_missing,
    BootstrapOperationView,
};
use vstd::prelude::*;

verus! {

/// A move in a world.
pub open spec fn move_trace(
    request: MoveImageRequestView,
    world: spec_fn(EffectView) -> ReplyView,
) -> Trace<Seq<char>> {
    trace(
        |op: MoveOperationView, reply: ReplyView| move_resumes(op, reply),
        move_begins(request),
        world,
        3,
    )
}

/// A rename in a world.
pub open spec fn rename_trace(
    request: RenameImageRequestView,
    world: spec_fn(EffectView) -> ReplyView,
) -> Trace<Seq<char>> {
    trace(
        |op: RenameOperationView, reply: ReplyView| rename_resumes(op, reply),
        rename_begins(request),
        world,
        3,
    )
}

/// A deletion in a world.
pub open spec fn delete_trace(
    relative_path: Seq<char>,
    workspace_path: Seq<char>,
    world: spec_fn(EffectView) -> ReplyView,
) -> Trace<bool> {
    trace(
        |op: DeleteOperationView, reply: ReplyView| delete_resumes(op, reply),
        delete_begins(relative_path, workspace_path),
        world,
        2,
    )
}

/// The setting up of a workspace in a world.
pub open spec fn bootstrap_trace(
    root: Seq<char>,
    world: spec_fn(EffectView) -> ReplyView,
) -> Trace<Seq<char>> {
    trace(
        |op: BootstrapOperationView, reply: ReplyView| bootstrap_resumes(op, reply),
        bootstrap_begins(root),
        world,
        3,
    )
}

/// Every operation finishes, whatever the file system answers: a move, a
/// rename and a setting up after three effects at most, a deletion after
/// two.
pub proof fn law_operations_finish(
    moving: MoveImageRequestView,
    renaming: RenameImageRequestView,
    relative_path: Seq<char>,
    workspace_path: Seq<char>,
    world: spec_fn(EffectView) -> ReplyView,
)
    ensures
        move_trace(moving, world).result is Some,
        rename_trace(renaming, world).result is Some,
        delete_trace(relative_path, workspace_path, world).result is Some,
        bootstrap_trace(workspace_path, world).result is Some,
{
    reveal_with_fuel(trace, 4);
}

/// A move whose source is found, and whose two changes are made, creates
/// the directory of the new path with its missing ancestors, renames the
/// file in one call and returns the new relative path.
pub proof fn law_move_relocates(
    request: MoveImageRequestView,
    world: spec_fn(EffectView) -> ReplyView,
)
    requires
        parent(join(request.workspace_path, request.new_path)) is Some,
        world(EffectView::Probe { path: join(request.workspace_path, request.old_path) }) is Found,
        world(
            EffectView::CreateDirAll {
                path: parent(join(request.workspace_path, request.new_path))->0,
            },
        ) is Done,
        world(
            EffectView::Rename {
                from: join(request.workspace_path, request.old_path),
                to: join(request.workspace_path, request.new_path),
            },
        ) is Done,
    ensures
        move_trace(request, world).effects == seq![
            EffectView::Probe { path: join(request.workspace_path, request.old_path) },
            EffectView::CreateDirAll {
                path: parent(join(request.workspace_path, request.new_path))->0,
            },
            EffectView::Rename {
                from: join(request.workspace_path, request.old_path),
                to: join(request.workspace_path, request.new_path),
            },
        ],
        move_trace(request, world).result == Some(Ok::<Seq<char>, FsErrorView>(request.new_path)),
{
    reveal_with_fuel(trace, 4);
    let t = move_trace(request, world);
    assert(t.effects =~= seq![
        EffectView::Probe { path: join(request.workspace_path, request.old_path) },
        EffectView::CreateDirAll {
            path: parent(join(request.workspace_path, request.new_path))->0,
        },
        EffectView::Rename {
            from: join(request.workspace_path, request.old_path),
            to: join(request.workspace_path, request.new_path),
        },
    ]);
}

/// A move whose source is not found fails with `SourceMissing` and changes
/// nothing.
pub proof fn law_move_needs_source(
    request: MoveImageRequestView,
    world: spec_fn(EffectView) -> ReplyView,
)
    requires
        !(world(EffectView::Probe { path: join(request.workspace_path, request.old_path) })
            is Found),
    ensures
        move_trace(request, world).result == Some(
            Err::<Seq<char>, FsErrorView>(
                source_missing(join(request.workspace_path, request.old_path)),
            ),
        ),
        only_looked(move_trace(request, world)),
{
    reveal_with_fuel(trace, 4);
}

/// A rename overwrites nothing: where the file is found under its old name
/// and the new name is not reported missing, the rename fails with
/// `TargetExists`, and it has asked for no change, so that both files are
/// as they were.
pub proof fn law_rename_never_overwrites(
    request: RenameImageRequestView,
    world: spec_fn(EffectView) -> ReplyView,
)
    requires
        rename_dir(request) matches Some(dir) && world(
            EffectView::Probe { path: join(dir, request.old_name) },
        ) is Found && !(world(EffectView::Probe { path: join(dir, request.new_name) })
            is Missing),
    ensures
        rename_trace(request, world).result == Some(
            Err::<Seq<char>, FsErrorView>(
                target_exists(join(rename_dir(request)->0, request.new_name)),
            ),
        ),
        only_looked(rename_trace(request, world)),
{
    reveal_with_fuel(trace, 4);
}

/// A rename asks for a change only after it has seen the old name taken
/// and the new name free. Where it asks for none, it fails.
pub proof fn law_rename_looks_first(
    request: RenameImageRequestView,
    world: spec_fn(EffectView) -> ReplyView,
)
    ensures
        !only_looked(rename_trace(request, world)) ==> (rename_dir(request) matches Some(dir)
            && world(EffectView::Probe { path: join(dir, request.old_name) }) is Found && world(
            EffectView::Probe { path: join(dir, request.new_name) },
        ) is Missing),
        only_looked(rename_trace(request, world)) ==> rename_trace(request, world).result matches Some(
            Err(_),
        ),
{
    reveal_with_fuel(trace, 4);
    let t = rename_trace(request, world);
    if rename_dir(request) matches Some(dir) && world(
        EffectView::Probe { path: join(dir, request.old_name) },
    ) is Found && world(EffectView::Probe { path: join(dir, request.new_name) }) is Missing
        && renamed(request.workspace_path, join(dir, request.new_name)) is Ok {
        assert(t.effects[2].is_mutation());
    }
}

/// A rename that ends in `InvalidPath` has changed nothing: the relative
/// path is judged before anything is asked of the file system, and the new
/// path before the file is renamed.
pub proof fn law_rename_refuses_before_it_changes(
    request: RenameImageRequestView,
    world: spec_fn(EffectView) -> ReplyView,
)
    requires
        rename_trace(request, world).result matches Some(Err(e)) && e.kind
            == ErrorKind::InvalidPath,
    ensures
        only_looked(rename_trace(request, world)),
{
    reveal_with_fuel(trace, 4);
}

/// A rename of a relative path without a parent fails with `InvalidPath` at
/// once: nothing is asked of the file system, so that nothing inside or
/// outside the workspace is touched.
pub proof fn law_rename_needs_parent(
    request: RenameImageRequestView,
    world: spec_fn(EffectView) -> ReplyView,
)
    requires
        parent(request.relative_path) is None,
    ensures
        rename_trace(request, world).result == Some(
            Err::<Seq<char>, FsErrorView>(no_parent(request.relative_path)),
        ),
        rename_trace(request, world).effects.len() == 0,
{
    reveal_with_fuel(trace, 4);
}

/// A rename keeps the file in its directory: for a file at a relative path
/// in portable form without `.` segments, as scans return it, and a new name
/// that is one segment, the rename begins,
/// and once it is made its result is the old relative path with the new
/// name in place of its last segment.
pub proof fn law_rename_stays_in_directory(request: RenameImageRequestView)
    requires
        is_portable_relative(request.relative_path),
        has_no_dot_segment(request.relative_path),
        request.relative_path.len() > 0,
        request.new_name.len() > 0,
        forall|i: int| 0 <= i < request.new_name.len() ==> !is_separator(request.new_name[i]),
    ensures
        rename_dir(request) is Some,
        renamed(request.workspace_path, join(rename_dir(request)->0, request.new_name)) == Ok::<
            Seq<char>,
            FsErrorView,
        >(render(segments(request.relative_path).drop_last().push(request.new_name))),
{
    let root = request.workspace_path;
    lemma_portable_is_rendered(request.relative_path);
    assert(segments(request.relative_path).len() > 0) by {
        if segments(request.relative_path).len() == 0 {
            assert(render(segments(request.relative_path)).len() == 0);
        }
    }
    lemma_parent_segments(request.relative_path);
    let below = parent(request.relative_path)->0;
    let kept = segments(request.relative_path).drop_last();
    lemma_segments_join(root, below);
    let dir = join(root, below);
    lemma_single_segment(request.new_name);
    lemma_segments_join(dir, request.new_name);
    let target = join(dir, request.new_name);
    assert(segments(target) == segments(root) + kept.push(request.new_name)) by {
        assert(segments(root) + kept + seq![request.new_name] == segments(root) + kept.push(
            request.new_name,
        ));
    }
    assert(segments(target).subrange(0, segments(root).len() as int) == segments(root));
    assert(segments(target).skip(segments(root).len() as int) == kept.push(request.new_name));
}

/// A deletion of a file that is found removes it and returns `true`; the
/// same deletion in a world where the file is no longer found fails with
/// `SourceMissing` and changes nothing.
pub proof fn law_delete_once(
    relative_path: Seq<char>,
    workspace_path: Seq<char>,
    before: spec_fn(EffectView) -> ReplyView,
    after: spec_fn(EffectView) -> ReplyView,
)
    requires
        before(EffectView::Probe { path: join(workspace_path, relative_path) }) is Found,
        before(EffectView::RemoveFile { path: join(workspace_path, relative_path) }) is Done,
        !(after(EffectView::Probe { path: join(workspace_path, relative_path) }) is Found),
    ensures
        delete_trace(relative_path, workspace_path, before).effects == seq![
            EffectView::Probe { path: join(workspace_path, relative_path) },
            EffectView::RemoveFile { path: join(workspace_path, relative_path) },
        ],
        delete_trace(relative_path, workspace_path, before).result == Some(
            Ok::<bool, FsErrorView>(true),
        ),
        delete_trace(relative_path, workspace_path, after).result == Some(
            Err::<bool, FsErrorView>(file_missing(join(workspace_path, relative_path))),
        ),
        only_looked(delete_trace(relative_path, workspace_path, after)),
{
    reveal_with_fuel(trace, 3);
    assert(delete_trace(relative_path, workspace_path, before).effects =~= seq![
        EffectView::Probe { path: join(workspace_path, relative_path) },
        EffectView::RemoveFile { path: join(workspace_path, relative_path) },
    ]);
}

/// Setting up a workspace twice: the first time, with no control directory
/// there, it is created; the second time, with the control directory there,
/// nothing is changed, there is no error, and the result is the same path.
pub proof fn law_bootstrap_twice(
    root: Seq<char>,
    first: spec_fn(EffectView) -> ReplyView,
    second: spec_fn(EffectView) -> ReplyView,
)
    requires
        first(EffectView::Probe { path: root }).is_directory(),
        !(first(EffectView::Probe { path: control_dir(root) }) is Found),
        first(EffectView::CreateDirAll { path: control_dir(root) }) is Done,
        second(EffectView::Probe { path: root }).is_directory(),
        second(EffectView::Probe { path: control_dir(root) }).is_directory(),
    ensures
        bootstrap_trace(root, first).effects == seq![
            EffectView::Probe { path: root },
            EffectView::Probe { path: control_dir(root) },
            EffectView::CreateDirAll { path: control_dir(root) },
        ],
        bootstrap_trace(root, first).result == Some(Ok::<Seq<char>, FsErrorView>(control_db(root))),
        bootstrap_trace(root, second).result == bootstrap_trace(root, first).result,
        only_looked(bootstrap_trace(root, second)),
{
    reveal_with_fuel(trace, 4);
    assert(bootstrap_trace(root, first).effects =~= seq![
        EffectView::Probe { path: root },
        EffectView::Probe { path: control_dir(root) },
        EffectView::CreateDirAll { path: control_dir(root) },
    ]);
}

/// A workspace is set up only in a directory, and its control directory is a
/// directory: where the root is something else the operation fails with
/// `NotADirectory`, and so it does where something else stands at the path
/// of the control directory. Either way nothing is changed.
pub proof fn law_bootstrap_needs_directories(
    root: Seq<char>,
    world: spec_fn(EffectView) -> ReplyView,
)
    ensures
        world(EffectView::Probe { path: root }) is Found && !world(
            EffectView::Probe { path: root },
        ).is_directory() ==> {
            &&& bootstrap_trace(root, world).result == Some(
                Err::<Seq<char>, FsErrorView>(not_a_directory(root)),
            )
            &&& only_looked(bootstrap_trace(root, world))
        },
        world(EffectView::Probe { path: root }).is_directory() && world(
            EffectView::Probe { path: control_dir(root) },
        ) is Found && !world(EffectView::Probe { path: control_dir(root) }).is_directory() ==> {
            &&& bootstrap_trace(root, world).result == Some(
                Err::<Seq<char>, FsErrorView>(not_a_directory(control_dir(root))),
            )
            &&& only_looked(bootstrap_trace(root, world))
        },
{
    reveal_with_fuel(trace, 4);
}

/// Where the setting up succeeds, the control directory was seen to be a
/// directory, or its creation was reported done.
pub proof fn law_bootstrap_leaves_a_directory(
    root: Seq<char>,
    world: spec_fn(EffectView) -> ReplyView,
)
    requires
        bootstrap_trace(root, world).result matches Some(Ok(_)),
    ensures
        bootstrap_trace(root, world).result == Some(Ok::<Seq<char>, FsErrorView>(control_db(root))),
        world(EffectView::Probe { path: root }).is_directory(),
        world(EffectView::Probe { path: control_dir(root) }).is_directory() || (!(world(
            EffectView::Probe { path: control_dir(root) },
        ) is Found) && world(EffectView::CreateDirAll { path: control_dir(root) }) is Done),
{
    reveal_with_fuel(trace, 4);
}

/// Without its root a workspace is not set up: the operation fails with
/// `WorkspaceNotFound` and changes nothing.
pub proof fn law_bootstrap_needs_root(root: Seq<char>, world: spec_fn(EffectView) -> ReplyView)
    requires
        !(world(EffectView::Probe { path: root }) is Found),
    ensures
        bootstrap_trace(root, world).result == Some(
            Err::<Seq<char>, FsErrorView>(root_missing(root)),
        ),
        only_looked(bootstrap_trace(root, world)),
{
    reveal_with_fuel(trace, 4);
}

} // verus!
