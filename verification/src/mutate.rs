//! Moving, renaming and deleting the files of a workspace.
//!
//! Each operation looks before it changes anything: it trusts no earlier
//! scan, asks whether its source is there, and only then asks for the
//! change. A reply that does not allow the next step ends the operation.
//!
//! The two ways of giving a file another path differ on purpose. A rename
//! never replaces a file: it asks whether the new name is taken and fails
//! with `TargetExists` where it is. A move does not ask: it hands the new
//! path to the file system's rename, which may replace what is there. A move
//! is also not one transaction: where the rename fails after the directory
//! of the new path was made, the directory stays and the file is where it
//! was.

use crate::error::{failure, ErrorKind, FsError, FsErrorView};
use crate::model::{
    MoveImageRequest, MoveImageRequestView, RenameImageRequest, RenameImageRequestView,
};
use crate::operation::{Effect, EffectView, Progress, ProgressView, Reply, ReplyView};
use crate::path::{
    join, outside_workspace, parent, parent_dir, relative_to, to_absolute, to_relative,
};
use vstd::prelude::*;

verus! {

/// A move that is under way.
#[derive(Clone, Debug, PartialEq, Eq)]
pub enum MoveOperation {
    /// Asked whether the source exists.
    ProbingSource { source: String, target: String, new_path: String },
    /// Asked for the directory of the target to be created.
    CreatingParent { dir: String, source: String, target: String, new_path: String },
    /// Asked for the rename itself.
    Renaming { source: String, new_path: String },
}

/// A rename that is under way.
#[derive(Clone, Debug, PartialEq, Eq)]
pub enum RenameOperation {
    /// Asked whether the file exists under its old name.
    ProbingSource { workspace: String, source: String, target: String },
    /// Asked whether the new name is taken.
    ProbingTarget { workspace: String, source: String, target: String },
    /// Asked for the rename itself.
    Renaming { workspace: String, source: String, target: String },
}

/// A deletion that is under way.
#[derive(Clone, Debug, PartialEq, Eq)]
pub enum DeleteOperation {
    /// Asked whether the file exists.
    ProbingSource { path: String },
    /// Asked for the file to be removed.
    Removing { path: String },
}

/// A step of a move: the move goes on with an effect, or it has finished
/// with the new relative path.
pub type MoveStep = Progress<MoveOperation, String>;

/// A step of a rename: the rename goes on with an effect, or it has finished
/// with the new relative path.
pub type RenameStep = Progress<RenameOperation, String>;

/// A step of a deletion: the deletion goes on with an effect, or it has
/// finished with `true`.
pub type DeleteStep = Progress<DeleteOperation, bool>;

/// A step of a move, as a mathematical value.
pub type MoveStepView = ProgressView<MoveOperationView, Seq<char>>;

/// A step of a rename, as a mathematical value.
pub type RenameStepView = ProgressView<RenameOperationView, Seq<char>>;

/// A step of a deletion, as a mathematical value.
pub type DeleteStepView = ProgressView<DeleteOperationView, bool>;

/// A move under way, as a mathematical value.
pub enum MoveOperationView {
    ProbingSource { source: Seq<char>, target: Seq<char>, new_path: Seq<char> },
    CreatingParent { dir: Seq<char>, source: Seq<char>, target: Seq<char>, new_path: Seq<char> },
    Renaming { source: Seq<char>, new_path: Seq<char> },
}

/// A rename under way, as a mathematical value.
pub enum RenameOperationView {
    ProbingSource { workspace: Seq<char>, source: Seq<char>, target: Seq<char> },
    ProbingTarget { workspace: Seq<char>, source: Seq<char>, target: Seq<char> },
    Renaming { workspace: Seq<char>, source: Seq<char>, target: Seq<char> },
}

/// A deletion under way, as a mathematical value.
pub enum DeleteOperationView {
    ProbingSource { path: Seq<char> },
    Removing { path: Seq<char> },
}

impl View for MoveOperation {
    type V = MoveOperationView;

    open spec fn view(&self) -> MoveOperationView {
        match *self {
            MoveOperation::ProbingSource { source, target, new_path } => {
                MoveOperationView::ProbingSource {
                    source: source@,
                    target: target@,
                    new_path: new_path@,
                }
            },
            MoveOperation::CreatingParent { dir, source, target, new_path } => {
                MoveOperationView::CreatingParent {
                    dir: dir@,
                    source: source@,
                    target: target@,
                    new_path: new_path@,
                }
            },
            MoveOperation::Renaming { source, new_path } => MoveOperationView::Renaming {
                source: source@,
                new_path: new_path@,
            },
        }
    }
}

impl View for RenameOperation {
    type V = RenameOperationView;

    open spec fn view(&self) -> RenameOperationView {
        match *self {
            RenameOperation::ProbingSource { workspace, source, target } => {
                RenameOperationView::ProbingSource {
                    workspace: workspace@,
                    source: source@,
                    target: target@,
                }
            },
            RenameOperation::ProbingTarget { workspace, source, target } => {
                RenameOperationView::ProbingTarget {
                    workspace: workspace@,
                    source: source@,
                    target: target@,
                }
            },
            RenameOperation::Renaming { workspace, source, target } => {
                RenameOperationView::Renaming {
                    workspace: workspace@,
                    source: source@,
                    target: target@,
                }
            },
        }
    }
}

impl View for DeleteOperation {
    type V = DeleteOperationView;

    open spec fn view(&self) -> DeleteOperationView {
        match *self {
            DeleteOperation::ProbingSource { path } => DeleteOperationView::ProbingSource {
                path: path@,
            },
            DeleteOperation::Removing { path } => DeleteOperationView::Removing { path: path@ },
        }
    }
}

/// The error of a move or a rename whose source is not there.
pub open spec fn source_missing(path: Seq<char>) -> FsErrorView {
    failure(ErrorKind::SourceMissing, "Source file does not exist"@, Seq::empty(), path)
}

/// The error of a deletion whose file is not there.
pub open spec fn file_missing(path: Seq<char>) -> FsErrorView {
    failure(ErrorKind::SourceMissing, "File does not exist"@, Seq::empty(), path)
}

/// The error of a rename whose new name is taken.
pub open spec fn target_exists(path: Seq<char>) -> FsErrorView {
    failure(ErrorKind::TargetExists, "Target file already exists"@, Seq::empty(), path)
}

/// The error of a rename whose relative path has no parent.
pub open spec fn no_parent(path: Seq<char>) -> FsErrorView {
    failure(ErrorKind::InvalidPath, "Invalid file path"@, Seq::empty(), path)
}

/// The error of a change that the file system did not make.
pub open spec fn io_failure(message: Seq<char>, reply: ReplyView, path: Seq<char>) -> FsErrorView {
    failure(ErrorKind::IoFailure, message, reply.detail(), path)
}

/// The step that asks for the rename of a move.
pub open spec fn move_renames(
    source: Seq<char>,
    target: Seq<char>,
    new_path: Seq<char>,
) -> MoveStepView {
    ProgressView::Continue(
        MoveOperationView::Renaming { source, new_path },
        EffectView::Rename { from: source, to: target },
    )
}

/// How a move begins: both paths are made absolute under the workspace
/// root, and the source is probed.
pub open spec fn move_begins(request: MoveImageRequestView) -> MoveStepView {
    let source = join(request.workspace_path, request.old_path);
    let target = join(request.workspace_path, request.new_path);
    ProgressView::Continue(
        MoveOperationView::ProbingSource { source, target, new_path: request.new_path },
        EffectView::Probe { path: source },
    )
}

/// How a move goes on. A source that was not found ends it. Otherwise the
/// directory of the target is created with its missing ancestors, then the
/// file is renamed in one call, which may replace a file at the target; the
/// result is the new relative path as it was asked for.
pub open spec fn move_resumes(op: MoveOperationView, reply: ReplyView) -> MoveStepView {
    match op {
        MoveOperationView::ProbingSource { source, target, new_path } => {
            if reply is Found {
                match parent(target) {
                    Some(dir) => ProgressView::Continue(
                        MoveOperationView::CreatingParent { dir, source, target, new_path },
                        EffectView::CreateDirAll { path: dir },
                    ),
                    None => move_renames(source, target, new_path),
                }
            } else {
                ProgressView::Finished(Err(source_missing(source)))
            }
        },
        MoveOperationView::CreatingParent { dir, source, target, new_path } => {
            if reply is Done {
                move_renames(source, target, new_path)
            } else {
                ProgressView::Finished(
                    Err(io_failure("Failed to create target directory: "@, reply, dir)),
                )
            }
        },
        MoveOperationView::Renaming { source, new_path } => {
            if reply is Done {
                ProgressView::Finished(Ok(new_path))
            } else {
                ProgressView::Finished(Err(io_failure("Failed to move file: "@, reply, source)))
            }
        },
    }
}

/// The directory in which a rename reads both names: the parent of the
/// file's relative path, under the workspace root. There is none where the
/// relative path has no parent.
pub open spec fn rename_dir(request: RenameImageRequestView) -> Option<Seq<char>> {
    match parent(request.relative_path) {
        Some(dir) => Some(join(request.workspace_path, dir)),
        None => None,
    }
}

/// How a rename begins. Both names are read in the directory of the file,
/// and the old one is probed. A relative path without a parent is refused at
/// once, before anything is asked of the file system.
pub open spec fn rename_begins(request: RenameImageRequestView) -> RenameStepView {
    match rename_dir(request) {
        None => ProgressView::Finished(Err(no_parent(request.relative_path))),
        Some(dir) => {
            let source = join(dir, request.old_name);
            let target = join(dir, request.new_name);
            ProgressView::Continue(
                RenameOperationView::ProbingSource {
                    workspace: request.workspace_path,
                    source,
                    target,
                },
                EffectView::Probe { path: source },
            )
        },
    }
}

/// The result of a rename that was made: the path of the new name relative
/// to the workspace root.
pub open spec fn renamed(workspace: Seq<char>, target: Seq<char>) -> Result<Seq<char>, FsErrorView> {
    match relative_to(workspace, target) {
        Some(relative) => Ok(relative),
        None => Err(outside_workspace(target)),
    }
}

/// How a rename goes on. It ends where the old name is not found, and where
/// the new name is not reported missing: nothing is ever overwritten. It
/// also ends, with `InvalidPath`, where the new name would take the file out
/// of the workspace. Only then is the file renamed.
pub open spec fn rename_resumes(op: RenameOperationView, reply: ReplyView) -> RenameStepView {
    match op {
        RenameOperationView::ProbingSource { workspace, source, target } => {
            if reply is Found {
                ProgressView::Continue(
                    RenameOperationView::ProbingTarget { workspace, source, target },
                    EffectView::Probe { path: target },
                )
            } else {
                ProgressView::Finished(Err(source_missing(source)))
            }
        },
        RenameOperationView::ProbingTarget { workspace, source, target } => {
            if !(reply is Missing) {
                ProgressView::Finished(Err(target_exists(target)))
            } else if renamed(workspace, target) is Err {
                ProgressView::Finished(renamed(workspace, target))
            } else {
                ProgressView::Continue(
                    RenameOperationView::Renaming { workspace, source, target },
                    EffectView::Rename { from: source, to: target },
                )
            }
        },
        RenameOperationView::Renaming { workspace, source, target } => {
            if reply is Done {
                ProgressView::Finished(renamed(workspace, target))
            } else {
                ProgressView::Finished(Err(io_failure("Failed to rename file: "@, reply, source)))
            }
        },
    }
}

/// How a deletion begins: the file is probed.
pub open spec fn delete_begins(relative_path: Seq<char>, workspace_path: Seq<char>) -> DeleteStepView {
    let path = join(workspace_path, relative_path);
    ProgressView::Continue(
        DeleteOperationView::ProbingSource { path },
        EffectView::Probe { path },
    )
}

/// How a deletion goes on: a file that was found is removed for good, and
/// the result is `true`.
pub open spec fn delete_resumes(op: DeleteOperationView, reply: ReplyView) -> DeleteStepView {
    match op {
        DeleteOperationView::ProbingSource { path } => {
            if reply is Found {
                ProgressView::Continue(
                    DeleteOperationView::Removing { path },
                    EffectView::RemoveFile { path },
                )
            } else {
                ProgressView::Finished(Err(file_missing(path)))
            }
        },
        DeleteOperationView::Removing { path } => {
            if reply is Done {
                ProgressView::Finished(Ok(true))
            } else {
                ProgressView::Finished(Err(io_failure("Failed to delete file: "@, reply, path)))
            }
        },
    }
}

/// The failure of a change that the file system did not make.
fn change_failed(message: &str, reply: Reply, path: &str) -> (e: FsError)
    ensures
        e@ == io_failure(message@, reply@, path@),
{
    let detail = reply.into_detail();
    FsError::with_detail(ErrorKind::IoFailure, message, detail.as_str(), path)
}

/// The step that asks for the rename of a move.
fn rename_step(source: String, target: String, new_path: String) -> (out: MoveStep)
    ensures
        out@ == move_renames(source@, target@, new_path@),
{
    let effect = Effect::Rename { from: source.clone(), to: target };
    Progress::Continue(MoveOperation::Renaming { source, new_path }, effect)
}

/// Begins to move a file to another relative path of its workspace.
pub fn move_image(request: MoveImageRequest) -> (out: MoveStep)
    ensures
        out@ == move_begins(request@),
{
    let source = to_absolute(request.workspace_path.as_str(), request.old_path.as_str());
    let target = to_absolute(request.workspace_path.as_str(), request.new_path.as_str());
    let effect = Effect::Probe { path: source.clone() };
    Progress::Continue(
        MoveOperation::ProbingSource { source, target, new_path: request.new_path },
        effect,
    )
}

impl MoveOperation {
    /// Goes on with the move, given what came of the effect it asked for.
    pub fn resume(self, reply: Reply) -> (out: MoveStep)
        ensures
            out@ == move_resumes(self@, reply@),
    {
        match self {
            MoveOperation::ProbingSource { source, target, new_path } => {
                if reply.is_found() {
                    match parent_dir(target.as_str()) {
                        Some(dir) => {
                            let effect = Effect::CreateDirAll { path: dir.clone() };
                            Progress::Continue(
                                MoveOperation::CreatingParent { dir, source, target, new_path },
                                effect,
                            )
                        },
                        None => rename_step(source, target, new_path),
                    }
                } else {
                    Progress::Finished(
                        Err(
                            FsError::new(
                                ErrorKind::SourceMissing,
                                "Source file does not exist",
                                source.as_str(),
                            ),
                        ),
                    )
                }
            },
            MoveOperation::CreatingParent { dir, source, target, new_path } => {
                if reply.is_done() {
                    rename_step(source, target, new_path)
                } else {
                    Progress::Finished(
                        Err(
                            change_failed(
                                "Failed to create target directory: ",
                                reply,
                                dir.as_str(),
                            ),
                        ),
                    )
                }
            },
            MoveOperation::Renaming { source, new_path } => {
                if reply.is_done() {
                    Progress::Finished(Ok(new_path))
                } else {
                    Progress::Finished(
                        Err(change_failed("Failed to move file: ", reply, source.as_str())),
                    )
                }
            },
        }
    }
}

/// Begins to give a file another name in the directory it is in.
pub fn rename_image(request: RenameImageRequest) -> (out: RenameStep)
    ensures
        out@ == rename_begins(request@),
{
    match parent_dir(request.relative_path.as_str()) {
        None => Progress::Finished(
            Err(
                FsError::new(
                    ErrorKind::InvalidPath,
                    "Invalid file path",
                    request.relative_path.as_str(),
                ),
            ),
        ),
        Some(below) => {
            let dir = to_absolute(request.workspace_path.as_str(), below.as_str());
            let source = to_absolute(dir.as_str(), request.old_name.as_str());
            let target = to_absolute(dir.as_str(), request.new_name.as_str());
            let effect = Effect::Probe { path: source.clone() };
            Progress::Continue(
                RenameOperation::ProbingSource {
                    workspace: request.workspace_path,
                    source,
                    target,
                },
                effect,
            )
        },
    }
}

impl RenameOperation {
    /// Goes on with the rename, given what came of the effect it asked for.
    pub fn resume(self, reply: Reply) -> (out: RenameStep)
        ensures
            out@ == rename_resumes(self@, reply@),
    {
        match self {
            RenameOperation::ProbingSource { workspace, source, target } => {
                if reply.is_found() {
                    let effect = Effect::Probe { path: target.clone() };
                    Progress::Continue(
                        RenameOperation::ProbingTarget { workspace, source, target },
                        effect,
                    )
                } else {
                    Progress::Finished(
                        Err(
                            FsError::new(
                                ErrorKind::SourceMissing,
                                "Source file does not exist",
                                source.as_str(),
                            ),
                        ),
                    )
                }
            },
            RenameOperation::ProbingTarget { workspace, source, target } => {
                if !reply.is_missing() {
                    return Progress::Finished(
                        Err(
                            FsError::new(
                                ErrorKind::TargetExists,
                                "Target file already exists",
                                target.as_str(),
                            ),
                        ),
                    );
                }
                match to_relative(workspace.as_str(), target.as_str()) {
                    Err(e) => Progress::Finished(Err(e)),
                    Ok(_) => {
                        let effect = Effect::Rename { from: source.clone(), to: target.clone() };
                        Progress::Continue(
                            RenameOperation::Renaming { workspace, source, target },
                            effect,
                        )
                    },
                }
            },
            RenameOperation::Renaming { workspace, source, target } => {
                if reply.is_done() {
                    Progress::Finished(to_relative(workspace.as_str(), target.as_str()))
                } else {
                    Progress::Finished(
                        Err(change_failed("Failed to rename file: ", reply, source.as_str())),
                    )
                }
            },
        }
    }
}

/// Begins to delete a file of a workspace for good.
pub fn delete_image(relative_path: String, workspace_path: String) -> (out: DeleteStep)
    ensures
        out@ == delete_begins(relative_path@, workspace_path@),
{
    let path = to_absolute(workspace_path.as_str(), relative_path.as_str());
    let effect = Effect::Probe { path: path.clone() };
    Progress::Continue(DeleteOperation::ProbingSource { path }, effect)
}

impl DeleteOperation {
    /// Goes on with the deletion, given what came of the effect it asked
    /// for.
    pub fn resume(self, reply: Reply) -> (out: DeleteStep)
        ensures
            out@ == delete_resumes(self@, reply@),
    {
        match self {
            DeleteOperation::ProbingSource { path } => {
                if reply.is_found() {
                    let effect = Effect::RemoveFile { path: path.clone() };
                    Progress::Continue(DeleteOperation::Removing { path }, effect)
                } else {
                    Progress::Finished(
                        Err(
                            FsError::new(
                                ErrorKind::SourceMissing,
                                "File does not exist",
                                path.as_str(),
                            ),
                        ),
                    )
                }
            },
            DeleteOperation::Removing { path } => {
                if reply.is_done() {
                    Progress::Finished(Ok(true))
                } else {
                    Progress::Finished(
                        Err(change_failed("Failed to delete file: ", reply, path.as_str())),
                    )
                }
            },
        }
    }
}

} // verus!
