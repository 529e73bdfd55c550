//! The records that cross the boundary of the workspace layer.

use vstd::prelude::*;

verus! {

/// A workspace: a directory tree that scans and mutations are confined to.
/// The identifier and the two times are given by whoever stores workspaces;
/// this crate only carries them.
#[derive(Clone, Debug, PartialEq, Eq)]
pub struct Workspace {
    pub id: Option<i64>,
    pub name: String,
    pub absolute_path: String,
    pub created_at: Option<String>,
    pub updated_at: Option<String>,
}

/// An image file found by a scan, as it was at scan time.
#[derive(Clone, Debug, PartialEq, Eq)]
pub struct ImageFile {
    /// Base name with extension.
    pub name: String,
    /// Path below the workspace root, in portable form.
    pub relative_path: String,
    /// Size in bytes.
    pub file_size: u64,
    /// Creation time, RFC 3339.
    pub created_at: String,
    /// Modification time, RFC 3339.
    pub modified_at: String,
    /// Extension in lower case, without the dot.
    pub extension: String,
}

/// The wish to move a file to another relative path of the same workspace.
#[derive(Clone, Debug, PartialEq, Eq)]
pub struct MoveImageRequest {
    pub old_path: String,
    pub new_path: String,
    pub workspace_path: String,
}

/// The wish to give a file another name in the directory it is in.
#[derive(Clone, Debug, PartialEq, Eq)]
pub struct RenameImageRequest {
    pub old_name: String,
    pub new_name: String,
    /// The relative path of the file as it is now; its parent is the
    /// directory in which both names are read.
    pub relative_path: String,
    pub workspace_path: String,
}

/// A workspace as a mathematical value.
pub struct WorkspaceView {
    pub id: Option<i64>,
    pub name: Seq<char>,
    pub absolute_path: Seq<char>,
    pub created_at: Option<Seq<char>>,
    pub updated_at: Option<Seq<char>>,
}

/// An image record as a mathematical value.
pub struct ImageFileView {
    pub name: Seq<char>,
    pub relative_path: Seq<char>,
    pub file_size: u64,
    pub created_at: Seq<char>,
    pub modified_at: Seq<char>,
    pub extension: Seq<char>,
}

/// A move request as a mathematical value.
pub struct MoveImageRequestView {
    pub old_path: Seq<char>,
    pub new_path: Seq<char>,
    pub workspace_path: Seq<char>,
}

/// A rename request as a mathematical value.
pub struct RenameImageRequestView {
    pub old_name: Seq<char>,
    pub new_name: Seq<char>,
    pub relative_path: Seq<char>,
    pub workspace_path: Seq<char>,
}

/// The characters of an optional text.
pub open spec fn optional_text(text: Option<String>) -> Option<Seq<char>> {
    match text {
        Some(t) => Some(t@),
        None => None,
    }
}

impl View for Workspace {
    type V = WorkspaceView;

    open spec fn view(&self) -> WorkspaceView {
        WorkspaceView {
            id: self.id,
            name: self.name@,
            absolute_path: self.absolute_path@,
            created_at: optional_text(self.created_at),
            updated_at: optional_text(self.updated_at),
        }
    }
}

impl View for ImageFile {
    type V = ImageFileView;

    open spec fn view(&self) -> ImageFileView {
        ImageFileView {
            name: self.name@,
            relative_path: self.relative_path@,
            file_size: self.file_size,
            created_at: self.created_at@,
            modified_at: self.modified_at@,
            extension: self.extension@,
        }
    }
}

impl View for MoveImageRequest {
    type V = MoveImageRequestView;

    open spec fn view(&self) -> MoveImageRequestView {
        MoveImageRequestView {
            old_path: self.old_path@,
            new_path: self.new_path@,
            workspace_path: self.workspace_path@,
        }
    }
}

impl View for RenameImageRequest {
    type V = RenameImageRequestView;

    open spec fn view(&self) -> RenameImageRequestView {
        RenameImageRequestView {
            old_name: self.old_name@,
            new_name: self.new_name@,
            relative_path: self.relative_path@,
            workspace_path: self.workspace_path@,
        }
    }
}

} // verus!
