//! The failures that workspace operations report.

use vstd::prelude::*;
use vstd::string::StringExecFns;

verus! {

/// The kinds of failure.
#[derive(Clone, Copy, Debug, PartialEq, Eq, Structural)]
pub enum ErrorKind {
    /// The workspace root does not exist.
    WorkspaceNotFound,
    /// A path that was asked for does not exist.
    PathNotFound,
    /// The workspace path exists but is no directory.
    NotADirectory,
    /// The file to move, rename or delete does not exist.
    SourceMissing,
    /// The destination of a rename is already taken.
    TargetExists,
    /// A path cannot be expressed inside its workspace, or has no parent.
    InvalidPath,
    /// A file system call failed.
    IoFailure,
}

/// A failure: its kind, a text for the user that names the operation, and
/// the path that the failure is about.
#[derive(Clone, Debug, PartialEq, Eq)]
pub struct FsError {
    pub kind: ErrorKind,
    pub message: String,
    pub path: String,
}

/// An error as a mathematical value.
pub struct FsErrorView {
    pub kind: ErrorKind,
    pub message: Seq<char>,
    pub path: Seq<char>,
}

impl View for FsError {
    type V = FsErrorView;

    open spec fn view(&self) -> FsErrorView {
        FsErrorView { kind: self.kind, message: self.message@, path: self.path@ }
    }
}

/// The error of the given kind whose text is `message` followed by `detail`.
pub open spec fn failure(
    kind: ErrorKind,
    message: Seq<char>,
    detail: Seq<char>,
    path: Seq<char>,
) -> FsErrorView {
    FsErrorView { kind, message: message + detail, path }
}

impl FsError {
    /// An error with a fixed text.
    pub fn new(kind: ErrorKind, message: &str, path: &str) -> (e: FsError)
        ensures
            e@ == failure(kind, message@, Seq::empty(), path@),
    {
        let e = FsError { kind, message: message.to_owned(), path: path.to_owned() };
        assert(e.message@ == message@ + Seq::<char>::empty());
        e
    }

    /// An error whose text is `message` followed by what the file system
    /// said.
    pub fn with_detail(kind: ErrorKind, message: &str, detail: &str, path: &str) -> (e: FsError)
        ensures
            e@ == failure(kind, message@, detail@, path@),
    {
        let mut text = message.to_owned();
        text.append(detail);
        FsError { kind, message: text, path: path.to_owned() }
    }

    /// The text for the user.
    pub fn to_text(&self) -> (text: String)
        ensures
            text@ == self.message@,
    {
        self.message.clone()
    }
}

} // verus!
