//! The workspace itself: its control directory, its validity, its name and
//! the absolute paths of its files.

use crate::error::{failure, ErrorKind, FsError, FsErrorView};
use crate::mutate::io_failure;
use crate::operation::{Effect, EffectView, Progress, ProgressView, Reply, ReplyView};
use crate::path::{base_name, file_name, join, to_absolute};
use vstd::prelude::*;
use vstd::string::StringExecFns;

verus! {

/// Where the workspace keeps what belongs to this application: a hidden
/// directory directly under the root.
pub open spec fn control_dir(root: Seq<char>) -> Seq<char> {
    join(root, ".im_settings"@)
}

/// Where the database of the workspace is expected, inside the control
/// directory.
pub open spec fn control_db(root: Seq<char>) -> Seq<char> {
    join(control_dir(root), "workspace.db"@)
}

/// The setting up of a workspace that is under way.
#[derive(Clone, Debug, PartialEq, Eq)]
pub enum BootstrapOperation {
    /// Asked whether the root exists.
    ProbingRoot { root: String },
    /// Asked whether the control directory exists.
    ProbingControlDir { root: String },
    /// Asked for the control directory to be created.
    CreatingControlDir { root: String },
}

/// The search for an image that is under way.
#[derive(Clone, Debug, PartialEq, Eq)]
pub enum LocateOperation {
    /// Asked whether the image exists.
    Probing { path: String },
}

/// A step of a setting up: it goes on with an effect, or it has finished
/// with the path at which the database is expected.
pub type BootstrapStep = Progress<BootstrapOperation, String>;

/// A step of a search: it goes on with the probe, or it has finished with
/// the absolute path of the image.
pub type LocateStep = Progress<LocateOperation, String>;

/// A step of a setting up, as a mathematical value.
pub type BootstrapStepView = ProgressView<BootstrapOperationView, Seq<char>>;

/// A step of a search, as a mathematical value.
pub type LocateStepView = ProgressView<LocateOperationView, Seq<char>>;

/// A setting up under way, as a mathematical value.
pub enum BootstrapOperationView {
    ProbingRoot { root: Seq<char> },
    ProbingControlDir { root: Seq<char> },
    CreatingControlDir { root: Seq<char> },
}

/// A search under way, as a mathematical value.
pub enum LocateOperationView {
    Probing { path: Seq<char> },
}

impl View for BootstrapOperation {
    type V = BootstrapOperationView;

    open spec fn view(&self) -> BootstrapOperationView {
        match *self {
            BootstrapOperation::ProbingRoot { root } => BootstrapOperationView::ProbingRoot {
                root: root@,
            },
            BootstrapOperation::ProbingControlDir { root } => {
                BootstrapOperationView::ProbingControlDir { root: root@ }
            },
            BootstrapOperation::CreatingControlDir { root } => {
                BootstrapOperationView::CreatingControlDir { root: root@ }
            },
        }
    }
}

impl View for LocateOperation {
    type V = LocateOperationView;

    open spec fn view(&self) -> LocateOperationView {
        match *self {
            LocateOperation::Probing { path } => LocateOperationView::Probing { path: path@ },
        }
    }
}

/// The error of a workspace whose root is not there; its text names the
/// root.
pub open spec fn root_missing(root: Seq<char>) -> FsErrorView {
    failure(ErrorKind::WorkspaceNotFound, "Workspace directory does not exist: "@, root, root)
}

/// The error of an image that is not there.
pub open spec fn image_missing(path: Seq<char>) -> FsErrorView {
    failure(ErrorKind::PathNotFound, "Image file does not exist"@, Seq::empty(), path)
}

/// The error of a workspace path at which nothing exists.
pub open spec fn path_missing(path: Seq<char>) -> FsErrorView {
    failure(ErrorKind::PathNotFound, "Path does not exist"@, Seq::empty(), path)
}

/// The error of a path at which something other than a directory stands.
pub open spec fn not_a_directory(path: Seq<char>) -> FsErrorView {
    failure(ErrorKind::NotADirectory, "Path is not a directory"@, Seq::empty(), path)
}

/// The error of a workspace path that ends in no name.
pub open spec fn nameless(path: Seq<char>) -> FsErrorView {
    failure(
        ErrorKind::InvalidPath,
        "Could not extract workspace name from path"@,
        Seq::empty(),
        path,
    )
}

/// How the setting up of a workspace begins: the root is probed.
pub open spec fn bootstrap_begins(root: Seq<char>) -> BootstrapStepView {
    ProgressView::Continue(
        BootstrapOperationView::ProbingRoot { root },
        EffectView::Probe { path: root },
    )
}

/// How the setting up goes on. Without a root it fails, and so it does
/// where the root, or what stands at the path of the control directory, is
/// no directory; nothing has been changed then. A control directory that was
/// found is left as it is; one that is missing is created. Either way the
/// result is the path at which the database is expected.
pub open spec fn bootstrap_resumes(
    op: BootstrapOperationView,
    reply: ReplyView,
) -> BootstrapStepView {
    match op {
        BootstrapOperationView::ProbingRoot { root } => {
            if reply.is_directory() {
                ProgressView::Continue(
                    BootstrapOperationView::ProbingControlDir { root },
                    EffectView::Probe { path: control_dir(root) },
                )
            } else if reply is Found {
                ProgressView::Finished(Err(not_a_directory(root)))
            } else {
                ProgressView::Finished(Err(root_missing(root)))
            }
        },
        BootstrapOperationView::ProbingControlDir { root } => {
            if reply.is_directory() {
                ProgressView::Finished(Ok(control_db(root)))
            } else if reply is Found {
                ProgressView::Finished(Err(not_a_directory(control_dir(root))))
            } else {
                ProgressView::Continue(
                    BootstrapOperationView::CreatingControlDir { root },
                    EffectView::CreateDirAll { path: control_dir(root) },
                )
            }
        },
        BootstrapOperationView::CreatingControlDir { root } => {
            if reply is Done {
                ProgressView::Finished(Ok(control_db(root)))
            } else {
                ProgressView::Finished(
                    Err(
                        io_failure(
                            "Failed to create .im_settings directory: "@,
                            reply,
                            control_dir(root),
                        ),
                    ),
                )
            }
        },
    }
}

/// How the search for an image begins: its absolute path is probed.
pub open spec fn locate_begins(
    relative_path: Seq<char>,
    workspace_path: Seq<char>,
) -> LocateStepView {
    let path = join(workspace_path, relative_path);
    ProgressView::Continue(LocateOperationView::Probing { path }, EffectView::Probe { path })
}

/// How the search ends: with the absolute path of an image that was found.
pub open spec fn locate_resumes(op: LocateOperationView, reply: ReplyView) -> LocateStepView {
    match op {
        LocateOperationView::Probing { path } => {
            if reply is Found {
                ProgressView::Finished(Ok(path))
            } else {
                ProgressView::Finished(Err(image_missing(path)))
            }
        },
    }
}

/// Whether a path can serve as a workspace, given what was seen there.
pub open spec fn workspace_validity(
    path: Seq<char>,
    exists: bool,
    is_dir: bool,
) -> Result<bool, FsErrorView> {
    if !exists {
        Err(path_missing(path))
    } else if !is_dir {
        Err(not_a_directory(path))
    } else {
        Ok(true)
    }
}

/// The name of the workspace at `path`: the name its path ends in.
pub open spec fn workspace_name(path: Seq<char>) -> Result<Seq<char>, FsErrorView> {
    match file_name(path) {
        Some(name) => Ok(name),
        None => Err(nameless(path)),
    }
}

/// The greeting for `name`.
pub open spec fn greeting(name: Seq<char>) -> Seq<char> {
    "Hello, "@ + name + "! You've been greeted from Images Manager!"@
}

/// The failure of a path at which something other than a directory stands.
pub(crate) fn no_directory(path: &str) -> (e: FsError)
    ensures
        e@ == not_a_directory(path@),
{
    FsError::new(ErrorKind::NotADirectory, "Path is not a directory", path)
}

/// The path of the control directory under `root`.
fn control_dir_of(root: &str) -> (dir: String)
    ensures
        dir@ == control_dir(root@),
{
    to_absolute(root, ".im_settings")
}

/// The path at which the database of the workspace is expected.
fn control_db_of(root: &str) -> (db: String)
    ensures
        db@ == control_db(root@),
{
    let dir = control_dir_of(root);
    to_absolute(dir.as_str(), "workspace.db")
}

/// Begins to make sure that the control directory of a workspace exists.
pub fn ensure_workspace_structure(workspace_path: String) -> (out: BootstrapStep)
    ensures
        out@ == bootstrap_begins(workspace_path@),
{
    let effect = Effect::Probe { path: workspace_path.clone() };
    Progress::Continue(BootstrapOperation::ProbingRoot { root: workspace_path }, effect)
}

impl BootstrapOperation {
    /// Goes on with the setting up, given what came of the effect it asked
    /// for.
    pub fn resume(self, reply: Reply) -> (out: BootstrapStep)
        ensures
            out@ == bootstrap_resumes(self@, reply@),
    {
        match self {
            BootstrapOperation::ProbingRoot { root } => {
                if reply.is_directory() {
                    let effect = Effect::Probe { path: control_dir_of(root.as_str()) };
                    Progress::Continue(BootstrapOperation::ProbingControlDir { root }, effect)
                } else if reply.is_found() {
                    Progress::Finished(Err(no_directory(root.as_str())))
                } else {
                    Progress::Finished(
                        Err(
                            FsError::with_detail(
                                ErrorKind::WorkspaceNotFound,
                                "Workspace directory does not exist: ",
                                root.as_str(),
                                root.as_str(),
                            ),
                        ),
                    )
                }
            },
            BootstrapOperation::ProbingControlDir { root } => {
                if reply.is_directory() {
                    Progress::Finished(Ok(control_db_of(root.as_str())))
                } else if reply.is_found() {
                    let dir = control_dir_of(root.as_str());
                    Progress::Finished(Err(no_directory(dir.as_str())))
                } else {
                    let effect = Effect::CreateDirAll { path: control_dir_of(root.as_str()) };
                    Progress::Continue(BootstrapOperation::CreatingControlDir { root }, effect)
                }
            },
            BootstrapOperation::CreatingControlDir { root } => {
                if reply.is_done() {
                    Progress::Finished(Ok(control_db_of(root.as_str())))
                } else {
                    let dir = control_dir_of(root.as_str());
                    let detail = reply.into_detail();
                    Progress::Finished(
                        Err(
                            FsError::with_detail(
                                ErrorKind::IoFailure,
                                "Failed to create .im_settings directory: ",
                                detail.as_str(),
                                dir.as_str(),
                            ),
                        ),
                    )
                }
            },
        }
    }
}

/// Begins to look up the absolute path of an image of a workspace.
pub fn get_image_absolute_path(
    relative_path: String,
    workspace_path: String,
) -> (out: LocateStep)
    ensures
        out@ == locate_begins(relative_path@, workspace_path@),
{
    let path = to_absolute(workspace_path.as_str(), relative_path.as_str());
    let effect = Effect::Probe { path: path.clone() };
    Progress::Continue(LocateOperation::Probing { path }, effect)
}

impl LocateOperation {
    /// Ends the search, given what came of the probe.
    pub fn resume(self, reply: Reply) -> (out: LocateStep)
        ensures
            out@ == locate_resumes(self@, reply@),
    {
        match self {
            LocateOperation::Probing { path } => {
                if reply.is_found() {
                    Progress::Finished(Ok(path))
                } else {
                    Progress::Finished(
                        Err(
                            FsError::new(
                                ErrorKind::PathNotFound,
                                "Image file does not exist",
                                path.as_str(),
                            ),
                        ),
                    )
                }
            },
        }
    }
}

/// Judges whether `path` can serve as a workspace: something must exist
/// there, and it must be a directory.
pub fn validate_workspace_path(
    path: &str,
    exists: bool,
    is_dir: bool,
) -> (out: Result<bool, FsError>)
    ensures
        match out {
            Ok(valid) => workspace_validity(path@, exists, is_dir) == Ok::<bool, FsErrorView>(valid),
            Err(e) => workspace_validity(path@, exists, is_dir) == Err::<bool, FsErrorView>(e@),
        },
{
    if !exists {
        Err(FsError::new(ErrorKind::PathNotFound, "Path does not exist", path))
    } else if !is_dir {
        Err(no_directory(path))
    } else {
        Ok(true)
    }
}

/// The name of the workspace at `path`.
pub fn get_workspace_name_from_path(path: &str) -> (out: Result<String, FsError>)
    ensures
        match out {
            Ok(name) => workspace_name(path@) == Ok::<Seq<char>, FsErrorView>(name@),
            Err(e) => workspace_name(path@) == Err::<Seq<char>, FsErrorView>(e@),
        },
{
    match base_name(path) {
        Some(name) => Ok(name),
        None => Err(
            FsError::new(
                ErrorKind::InvalidPath,
                "Could not extract workspace name from path",
                path,
            ),
        ),
    }
}

/// Greets `name`.
pub fn greet(name: &str) -> (out: String)
    ensures
        out@ == greeting(name@),
{
    let mut out = "Hello, ".to_owned();
    out.append(name);
    out.append("! You've been greeted from Images Manager!");
    out
}

} // verus!
