use images_manager::error::{ErrorKind, FsError};
use images_manager::model::{MoveImageRequest, RenameImageRequest};
use images_manager::mutate::{
    delete_image, move_image, rename_image, DeleteOperation, MoveOperation, RenameOperation,
};
use images_manager::operation::{Effect, Progress, Reply};
use images_manager::path::parent_dir;
use images_manager::scan::{scan_images_at, FileMetadata, FoundEntry};
use images_manager::workspace::{
    ensure_workspace_structure, get_image_absolute_path, BootstrapOperation, LocateOperation,
};
use std::collections::BTreeSet;

/// A file system held in memory.
struct Disk {
    dirs: BTreeSet<String>,
    files: BTreeSet<String>,
    read_only: bool,
}

impl Disk {
    fn new(dirs: &[&str], files: &[&str]) -> Disk {
        Disk {
            dirs: dirs.iter().map(|d| d.to_string()).collect(),
            files: files.iter().map(|f| f.to_string()).collect(),
            read_only: false,
        }
    }

    fn holds(&self, path: &str) -> bool {
        self.dirs.contains(path) || self.files.contains(path)
    }

    fn perform(&mut self, effect: &Effect) -> Reply {
        match effect {
            Effect::Probe { path } => {
                if self.holds(path) {
                    Reply::Found { is_dir: self.dirs.contains(path) }
                } else {
                    Reply::Missing
                }
            }
            _ if self.read_only => Reply::Failed("Read-only file system (os error 30)".to_string()),
            Effect::CreateDirAll { path } => {
                let mut dir = Some(path.clone());
                while let Some(d) = dir {
                    if d.is_empty() || d == "/" {
                        break;
                    }
                    if self.files.contains(&d) {
                        return Reply::Failed("File exists (os error 17)".to_string());
                    }
                    self.dirs.insert(d.clone());
                    dir = parent_dir(&d);
                }
                Reply::Done
            }
            Effect::Rename { from, to } => {
                let target_dir = parent_dir(to).unwrap_or_default();
                if !self.files.contains(from) || !self.dirs.contains(&target_dir) {
                    return Reply::Failed("No such file or directory (os error 2)".to_string());
                }
                self.files.remove(from);
                self.files.insert(to.clone());
                Reply::Done
            }
            Effect::RemoveFile { path } => {
                if self.files.remove(path) {
                    Reply::Done
                } else {
                    Reply::Failed("No such file or directory (os error 2)".to_string())
                }
            }
        }
    }

    fn walk(&self, root: &str) -> Vec<FoundEntry> {
        let below = format!("{}/", root);
        let metadata = FileMetadata { size: 10, created: None, modified: None };
        let mut entries = Vec::new();
        for dir in &self.dirs {
            if dir == root || dir.starts_with(&below) {
                entries.push(FoundEntry { path: dir.clone(), is_file: false, metadata: Ok(metadata) });
            }
        }
        for file in &self.files {
            if file.starts_with(&below) {
                entries.push(FoundEntry { path: file.clone(), is_file: true, metadata: Ok(metadata) });
            }
        }
        entries
    }

    fn scan(&self, root: &str) -> Vec<String> {
        let root_is_there = self.dirs.contains(root);
        let images = scan_images_at(root, root_is_there, &self.walk(root), "now").unwrap();
        images.into_iter().map(|i| i.relative_path).collect()
    }
}

/// Runs an operation to its end on the disk; returns the effects it asked
/// for and its result.
fn drive<Op, T>(
    disk: &mut Disk,
    start: Progress<Op, T>,
    resume: fn(Op, Reply) -> Progress<Op, T>,
) -> (Vec<Effect>, Result<T, FsError>) {
    let mut effects = Vec::new();
    let mut step = start;
    loop {
        match step {
            Progress::Finished(result) => return (effects, result),
            Progress::Continue(op, effect) => {
                let reply = disk.perform(&effect);
                effects.push(effect);
                step = resume(op, reply);
            }
        }
    }
}

fn move_request(old: &str, new: &str) -> MoveImageRequest {
    MoveImageRequest {
        old_path: old.to_string(),
        new_path: new.to_string(),
        workspace_path: "/ws".to_string(),
    }
}

fn rename_request(old_name: &str, new_name: &str, relative_path: &str) -> RenameImageRequest {
    RenameImageRequest {
        old_name: old_name.to_string(),
        new_name: new_name.to_string(),
        relative_path: relative_path.to_string(),
        workspace_path: "/ws".to_string(),
    }
}

fn probe(path: &str) -> Effect {
    Effect::Probe { path: path.to_string() }
}

fn workspace() -> Disk {
    Disk::new(&["/ws", "/ws/a"], &["/ws/a/x.png", "/ws/a/y.png", "/ws/top.jpg"])
}

#[test]
fn move_creates_the_directory_and_relocates_the_file() {
    let mut disk = Disk::new(&["/ws", "/ws/a"], &["/ws/a/x.png"]);
    assert_eq!(disk.scan("/ws"), vec!["a/x.png"]);
    let (effects, result) =
        drive(&mut disk, move_image(move_request("a/x.png", "b/y.png")), MoveOperation::resume);
    assert_eq!(result, Ok("b/y.png".to_string()));
    assert_eq!(
        effects,
        vec![
            probe("/ws/a/x.png"),
            Effect::CreateDirAll { path: "/ws/b".to_string() },
            Effect::Rename { from: "/ws/a/x.png".to_string(), to: "/ws/b/y.png".to_string() },
        ]
    );
    assert!(disk.dirs.contains("/ws/b"));
    assert_eq!(disk.scan("/ws"), vec!["b/y.png"]);
}

#[test]
fn move_creates_every_missing_ancestor() {
    let mut disk = workspace();
    let (_, result) = drive(
        &mut disk,
        move_image(move_request("top.jpg", "p/q/r/top.jpg")),
        MoveOperation::resume,
    );
    assert_eq!(result, Ok("p/q/r/top.jpg".to_string()));
    assert!(disk.dirs.contains("/ws/p"));
    assert!(disk.dirs.contains("/ws/p/q"));
    assert!(disk.dirs.contains("/ws/p/q/r"));
    assert!(disk.files.contains("/ws/p/q/r/top.jpg"));
    assert!(!disk.files.contains("/ws/top.jpg"));
}

#[test]
fn move_returns_the_new_path_as_it_was_asked_for() {
    let mut disk = workspace();
    let (_, result) =
        drive(&mut disk, move_image(move_request("top.jpg", "a//top.jpg")), MoveOperation::resume);
    assert_eq!(result, Ok("a//top.jpg".to_string()));
}

#[test]
fn move_of_a_missing_source_changes_nothing() {
    let mut disk = workspace();
    let (effects, result) =
        drive(&mut disk, move_image(move_request("a/gone.png", "b/y.png")), MoveOperation::resume);
    let err = result.unwrap_err();
    assert_eq!(err.kind, ErrorKind::SourceMissing);
    assert_eq!(err.message, "Source file does not exist");
    assert_eq!(err.path, "/ws/a/gone.png");
    assert_eq!(effects, vec![probe("/ws/a/gone.png")]);
    assert!(!disk.dirs.contains("/ws/b"));
}

#[test]
fn move_does_not_look_at_the_target() {
    let mut disk = workspace();
    let (effects, result) =
        drive(&mut disk, move_image(move_request("a/x.png", "a/y.png")), MoveOperation::resume);
    assert_eq!(result, Ok("a/y.png".to_string()));
    assert!(!effects.contains(&probe("/ws/a/y.png")));
    assert!(!disk.files.contains("/ws/a/x.png"));
}

#[test]
fn move_reports_a_directory_that_cannot_be_created() {
    let mut disk = workspace();
    disk.read_only = true;
    let (effects, result) =
        drive(&mut disk, move_image(move_request("a/x.png", "b/y.png")), MoveOperation::resume);
    let err = result.unwrap_err();
    assert_eq!(err.kind, ErrorKind::IoFailure);
    assert_eq!(
        err.message,
        "Failed to create target directory: Read-only file system (os error 30)"
    );
    assert_eq!(err.path, "/ws/b");
    assert_eq!(effects.len(), 2);
    assert!(disk.files.contains("/ws/a/x.png"));
}

#[test]
fn move_reports_a_rename_that_fails() {
    let op = MoveOperation::Renaming { source: "/ws/a/x.png".to_string(), new_path: "b/y.png".to_string() };
    let step = op.resume(Reply::Failed("Invalid cross-device link (os error 18)".to_string()));
    let expected = FsError {
        kind: ErrorKind::IoFailure,
        message: "Failed to move file: Invalid cross-device link (os error 18)".to_string(),
        path: "/ws/a/x.png".to_string(),
    };
    assert_eq!(step, Progress::Finished(Err(expected)));
}

#[test]
fn move_without_a_target_directory_renames_at_once() {
    let request = MoveImageRequest {
        old_path: "x.png".to_string(),
        new_path: String::new(),
        workspace_path: String::new(),
    };
    let step = match move_image(request) {
        Progress::Continue(op, effect) => {
            assert_eq!(effect, probe("x.png"));
            op.resume(Reply::Found { is_dir: false })
        }
        Progress::Finished(_) => panic!("a move begins with a probe"),
    };
    match step {
        Progress::Continue(_, effect) => {
            assert_eq!(effect, Effect::Rename { from: "x.png".to_string(), to: String::new() })
        }
        Progress::Finished(_) => panic!("the rename is asked for"),
    }
}

#[test]
fn rename_fails_when_the_target_exists() {
    let mut disk = workspace();
    let (effects, result) = drive(
        &mut disk,
        rename_image(rename_request("x.png", "y.png", "a/x.png")),
        RenameOperation::resume,
    );
    let err = result.unwrap_err();
    assert_eq!(err.kind, ErrorKind::TargetExists);
    assert_eq!(err.message, "Target file already exists");
    assert_eq!(err.path, "/ws/a/y.png");
    assert_eq!(effects, vec![probe("/ws/a/x.png"), probe("/ws/a/y.png")]);
    assert!(effects.iter().all(|e| !e.is_mutation()));
    assert!(disk.files.contains("/ws/a/x.png"));
    assert!(disk.files.contains("/ws/a/y.png"));
    assert_eq!(disk.scan("/ws"), vec!["a/x.png", "a/y.png", "top.jpg"]);
}

#[test]
fn rename_keeps_the_directory() {
    let mut disk = workspace();
    let (effects, result) = drive(
        &mut disk,
        rename_image(rename_request("x.png", "z.png", "a/x.png")),
        RenameOperation::resume,
    );
    assert_eq!(result, Ok("a/z.png".to_string()));
    assert_eq!(
        effects,
        vec![
            probe("/ws/a/x.png"),
            probe("/ws/a/z.png"),
            Effect::Rename { from: "/ws/a/x.png".to_string(), to: "/ws/a/z.png".to_string() },
        ]
    );
    assert_eq!(disk.scan("/ws"), vec!["a/y.png", "a/z.png", "top.jpg"]);
}

#[test]
fn rename_at_the_top_of_the_workspace() {
    let mut disk = workspace();
    let (_, result) = drive(
        &mut disk,
        rename_image(rename_request("top.jpg", "first.jpg", "top.jpg")),
        RenameOperation::resume,
    );
    assert_eq!(result, Ok("first.jpg".to_string()));
    assert!(disk.files.contains("/ws/first.jpg"));
}

#[test]
fn rename_reads_the_old_name_in_the_directory_of_the_path() {
    let mut disk = workspace();
    let (effects, result) = drive(
        &mut disk,
        rename_image(rename_request("y.png", "z.png", "a/x.png")),
        RenameOperation::resume,
    );
    assert_eq!(result, Ok("a/z.png".to_string()));
    assert_eq!(effects[0], probe("/ws/a/y.png"));
    assert!(disk.files.contains("/ws/a/x.png"));
    assert!(!disk.files.contains("/ws/a/y.png"));
}

#[test]
fn rename_of_a_missing_source_changes_nothing() {
    let mut disk = workspace();
    let (effects, result) = drive(
        &mut disk,
        rename_image(rename_request("gone.png", "z.png", "a/gone.png")),
        RenameOperation::resume,
    );
    let err = result.unwrap_err();
    assert_eq!(err.kind, ErrorKind::SourceMissing);
    assert_eq!(err.message, "Source file does not exist");
    assert_eq!(err.path, "/ws/a/gone.png");
    assert_eq!(effects, vec![probe("/ws/a/gone.png")]);
}

#[test]
fn rename_of_a_path_without_parent_is_invalid() {
    for (relative_path, workspace_path) in [("", ""), ("", "/ws"), ("/", "/ws"), ("//", "/ws")] {
        let request = RenameImageRequest {
            old_name: "x.png".to_string(),
            new_name: "y.png".to_string(),
            relative_path: relative_path.to_string(),
            workspace_path: workspace_path.to_string(),
        };
        match rename_image(request) {
            Progress::Finished(Err(err)) => {
                assert_eq!(err.kind, ErrorKind::InvalidPath);
                assert_eq!(err.message, "Invalid file path");
                assert_eq!(err.path, relative_path);
            }
            _ => panic!("a path without parent is refused at once"),
        }
    }
}

#[test]
fn rename_without_parent_touches_nothing_outside_the_workspace() {
    let mut disk = Disk::new(&["/ws"], &["/x.png"]);
    let (effects, result) =
        drive(&mut disk, rename_image(rename_request("x.png", "y.png", "")), RenameOperation::resume);
    assert_eq!(result.unwrap_err().kind, ErrorKind::InvalidPath);
    assert_eq!(effects, Vec::new());
    assert!(disk.files.contains("/x.png"));
    assert!(!disk.files.contains("/y.png"));
}

#[test]
fn rename_reports_a_rename_that_fails() {
    let mut disk = workspace();
    disk.read_only = true;
    let (effects, result) = drive(
        &mut disk,
        rename_image(rename_request("x.png", "z.png", "a/x.png")),
        RenameOperation::resume,
    );
    let err = result.unwrap_err();
    assert_eq!(err.kind, ErrorKind::IoFailure);
    assert_eq!(err.message, "Failed to rename file: Read-only file system (os error 30)");
    assert_eq!(err.path, "/ws/a/x.png");
    assert_eq!(effects.len(), 3);
    assert!(disk.files.contains("/ws/a/x.png"));
}

#[test]
fn rename_out_of_the_workspace_has_no_relative_path() {
    let op = RenameOperation::Renaming {
        workspace: "/ws".to_string(),
        source: "/ws/a/x.png".to_string(),
        target: "/etc/x.png".to_string(),
    };
    match op.resume(Reply::Done) {
        Progress::Finished(Err(err)) => {
            assert_eq!(err.kind, ErrorKind::InvalidPath);
            assert_eq!(err.message, "Failed to get relative path: prefix not found");
            assert_eq!(err.path, "/etc/x.png");
        }
        _ => panic!("the new path lies outside the workspace"),
    }
}

#[test]
fn rename_goes_on_only_on_a_target_reported_missing() {
    for reply in [
        Reply::Found { is_dir: false },
        Reply::Found { is_dir: true },
        Reply::Done,
        Reply::Failed("?".to_string()),
    ] {
        let op = RenameOperation::ProbingTarget {
            workspace: "/ws".to_string(),
            source: "/ws/a/x.png".to_string(),
            target: "/ws/a/y.png".to_string(),
        };
        match op.resume(reply) {
            Progress::Finished(Err(err)) => assert_eq!(err.kind, ErrorKind::TargetExists),
            _ => panic!("only a missing target lets the rename go on"),
        }
    }
}

#[test]
fn delete_removes_the_file_once() {
    let mut disk = workspace();
    assert_eq!(disk.scan("/ws"), vec!["a/x.png", "a/y.png", "top.jpg"]);
    let (effects, result) = drive(
        &mut disk,
        delete_image("a/x.png".to_string(), "/ws".to_string()),
        DeleteOperation::resume,
    );
    assert_eq!(result, Ok(true));
    assert_eq!(
        effects,
        vec![probe("/ws/a/x.png"), Effect::RemoveFile { path: "/ws/a/x.png".to_string() }]
    );
    assert_eq!(disk.scan("/ws"), vec!["a/y.png", "top.jpg"]);

    let (effects, result) = drive(
        &mut disk,
        delete_image("a/x.png".to_string(), "/ws".to_string()),
        DeleteOperation::resume,
    );
    let err = result.unwrap_err();
    assert_eq!(err.kind, ErrorKind::SourceMissing);
    assert_eq!(err.message, "File does not exist");
    assert_eq!(err.path, "/ws/a/x.png");
    assert_eq!(effects, vec![probe("/ws/a/x.png")]);
    assert_eq!(disk.scan("/ws"), vec!["a/y.png", "top.jpg"]);
}

#[test]
fn delete_reports_a_removal_that_fails() {
    let mut disk = workspace();
    disk.read_only = true;
    let (_, result) = drive(
        &mut disk,
        delete_image("a/x.png".to_string(), "/ws".to_string()),
        DeleteOperation::resume,
    );
    let err = result.unwrap_err();
    assert_eq!(err.kind, ErrorKind::IoFailure);
    assert_eq!(err.message, "Failed to delete file: Read-only file system (os error 30)");
    assert_eq!(err.path, "/ws/a/x.png");
    assert!(disk.files.contains("/ws/a/x.png"));
}

#[test]
fn a_reply_that_is_no_answer_ends_the_operation() {
    let op = DeleteOperation::ProbingSource { path: "/ws/a/x.png".to_string() };
    match op.resume(Reply::Done) {
        Progress::Finished(Err(err)) => assert_eq!(err.kind, ErrorKind::SourceMissing),
        _ => panic!("only a found file is removed"),
    }
    let op = DeleteOperation::Removing { path: "/ws/a/x.png".to_string() };
    match op.resume(Reply::Found { is_dir: false }) {
        Progress::Finished(Err(err)) => {
            assert_eq!(err.kind, ErrorKind::IoFailure);
            assert_eq!(err.message, "Failed to delete file: ");
        }
        _ => panic!("only a removal that was made is a success"),
    }
}

#[test]
fn ensure_structure_twice_creates_the_control_directory_once() {
    let mut disk = Disk::new(&["/ws"], &["/ws/x.png"]);
    let (effects, result) = drive(
        &mut disk,
        ensure_workspace_structure("/ws".to_string()),
        BootstrapOperation::resume,
    );
    assert_eq!(result, Ok("/ws/.im_settings/workspace.db".to_string()));
    assert_eq!(
        effects,
        vec![
            probe("/ws"),
            probe("/ws/.im_settings"),
            Effect::CreateDirAll { path: "/ws/.im_settings".to_string() },
        ]
    );
    assert!(disk.dirs.contains("/ws/.im_settings"));
    disk.files.insert("/ws/.im_settings/workspace.db".to_string());
    let dirs = disk.dirs.clone();
    let files = disk.files.clone();

    let (effects, result) = drive(
        &mut disk,
        ensure_workspace_structure("/ws".to_string()),
        BootstrapOperation::resume,
    );
    assert_eq!(result, Ok("/ws/.im_settings/workspace.db".to_string()));
    assert_eq!(effects, vec![probe("/ws"), probe("/ws/.im_settings")]);
    assert_eq!(disk.dirs, dirs);
    assert_eq!(disk.files, files);
    assert_eq!(disk.scan("/ws"), vec!["x.png"]);
}

#[test]
fn ensure_structure_needs_the_root() {
    let mut disk = Disk::new(&[], &[]);
    let (effects, result) = drive(
        &mut disk,
        ensure_workspace_structure("/gone".to_string()),
        BootstrapOperation::resume,
    );
    let err = result.unwrap_err();
    assert_eq!(err.kind, ErrorKind::WorkspaceNotFound);
    assert_eq!(err.message, "Workspace directory does not exist: /gone");
    assert_eq!(err.path, "/gone");
    assert_eq!(effects, vec![probe("/gone")]);
    assert!(disk.dirs.is_empty());
}

#[test]
fn ensure_structure_reports_a_directory_that_cannot_be_created() {
    let mut disk = Disk::new(&["/ws"], &[]);
    disk.read_only = true;
    let (_, result) = drive(
        &mut disk,
        ensure_workspace_structure("/ws".to_string()),
        BootstrapOperation::resume,
    );
    let err = result.unwrap_err();
    assert_eq!(err.kind, ErrorKind::IoFailure);
    assert_eq!(
        err.message,
        "Failed to create .im_settings directory: Read-only file system (os error 30)"
    );
    assert_eq!(err.path, "/ws/.im_settings");
}

#[test]
fn absolute_path_of_an_image_that_exists() {
    let mut disk = workspace();
    let (effects, result) = drive(
        &mut disk,
        get_image_absolute_path("a/x.png".to_string(), "/ws".to_string()),
        LocateOperation::resume,
    );
    assert_eq!(result, Ok("/ws/a/x.png".to_string()));
    assert_eq!(effects, vec![probe("/ws/a/x.png")]);
}

#[test]
fn absolute_path_of_an_image_that_is_gone() {
    let mut disk = workspace();
    let (_, result) = drive(
        &mut disk,
        get_image_absolute_path("a/gone.png".to_string(), "/ws".to_string()),
        LocateOperation::resume,
    );
    let err = result.unwrap_err();
    assert_eq!(err.kind, ErrorKind::PathNotFound);
    assert_eq!(err.message, "Image file does not exist");
    assert_eq!(err.path, "/ws/a/gone.png");
}

#[test]
fn only_probes_leave_the_disk_alone() {
    assert!(!probe("/ws").is_mutation());
    assert!(Effect::CreateDirAll { path: "/ws/b".to_string() }.is_mutation());
    assert!(Effect::Rename { from: "a".to_string(), to: "b".to_string() }.is_mutation());
    assert!(Effect::RemoveFile { path: "a".to_string() }.is_mutation());
}

#[test]
fn replies_answer_as_they_are_named() {
    assert!(Reply::Found { is_dir: false }.is_found());
    assert!(Reply::Found { is_dir: true }.is_found());
    assert!(!Reply::Missing.is_found());
    assert!(Reply::Found { is_dir: true }.is_directory());
    assert!(!Reply::Found { is_dir: false }.is_directory());
    assert!(!Reply::Missing.is_directory());
    assert!(!Reply::Done.is_directory());
    assert!(Reply::Missing.is_missing());
    assert!(!Reply::Done.is_missing());
    assert!(Reply::Done.is_done());
    assert!(!Reply::Failed("x".to_string()).is_done());
    assert_eq!(Reply::Failed("disk full".to_string()).into_detail(), "disk full");
    assert_eq!(Reply::Done.into_detail(), "");
}

#[test]
fn a_stale_scan_is_checked_against_the_disk() {
    let mut disk = workspace();
    let listed = disk.scan("/ws");
    assert!(listed.contains(&"a/x.png".to_string()));
    disk.files.remove("/ws/a/x.png");

    let (_, moved) =
        drive(&mut disk, move_image(move_request("a/x.png", "b/x.png")), MoveOperation::resume);
    assert_eq!(moved.unwrap_err().kind, ErrorKind::SourceMissing);
    let (_, renamed) = drive(
        &mut disk,
        rename_image(rename_request("x.png", "z.png", "a/x.png")),
        RenameOperation::resume,
    );
    assert_eq!(renamed.unwrap_err().kind, ErrorKind::SourceMissing);
    let (_, deleted) = drive(
        &mut disk,
        delete_image("a/x.png".to_string(), "/ws".to_string()),
        DeleteOperation::resume,
    );
    assert_eq!(deleted.unwrap_err().kind, ErrorKind::SourceMissing);
    assert_eq!(disk.scan("/ws"), vec!["a/y.png", "top.jpg"]);
}

#[test]
fn ensure_structure_of_a_file_is_refused() {
    let mut disk = Disk::new(&["/ws"], &["/ws/pic.png"]);
    let (effects, result) = drive(
        &mut disk,
        ensure_workspace_structure("/ws/pic.png".to_string()),
        BootstrapOperation::resume,
    );
    let err = result.unwrap_err();
    assert_eq!(err.kind, ErrorKind::NotADirectory);
    assert_eq!(err.message, "Path is not a directory");
    assert_eq!(err.path, "/ws/pic.png");
    assert_eq!(effects, vec![probe("/ws/pic.png")]);
    assert_eq!(disk.dirs.len(), 1);
    assert_eq!(disk.files.len(), 1);
}

#[test]
fn ensure_structure_refuses_a_file_in_place_of_the_control_directory() {
    let mut disk = Disk::new(&["/ws"], &["/ws/.im_settings"]);
    let (effects, result) = drive(
        &mut disk,
        ensure_workspace_structure("/ws".to_string()),
        BootstrapOperation::resume,
    );
    let err = result.unwrap_err();
    assert_eq!(err.kind, ErrorKind::NotADirectory);
    assert_eq!(err.message, "Path is not a directory");
    assert_eq!(err.path, "/ws/.im_settings");
    assert_eq!(effects, vec![probe("/ws"), probe("/ws/.im_settings")]);
    assert!(disk.files.contains("/ws/.im_settings"));
    assert!(!disk.dirs.contains("/ws/.im_settings"));
}

#[test]
fn a_directory_counts_as_a_source_that_exists() {
    let mut disk = Disk::new(&["/ws", "/ws/a"], &[]);
    let step = match delete_image("a".to_string(), "/ws".to_string()) {
        Progress::Continue(op, effect) => op.resume(disk.perform(&effect)),
        Progress::Finished(_) => panic!("a deletion begins with a probe"),
    };
    match step {
        Progress::Continue(_, effect) => {
            assert_eq!(effect, Effect::RemoveFile { path: "/ws/a".to_string() })
        }
        Progress::Finished(_) => panic!("what was found is asked to be removed"),
    }
}

#[test]
fn rename_out_of_the_workspace_is_refused_before_the_file_is_touched() {
    let mut disk = workspace();
    let (effects, result) = drive(
        &mut disk,
        rename_image(rename_request("x.png", "/elsewhere/z.png", "a/x.png")),
        RenameOperation::resume,
    );
    let err = result.unwrap_err();
    assert_eq!(err.kind, ErrorKind::InvalidPath);
    assert_eq!(err.message, "Failed to get relative path: prefix not found");
    assert_eq!(err.path, "/elsewhere/z.png");
    assert_eq!(effects, vec![probe("/ws/a/x.png"), probe("/elsewhere/z.png")]);
    assert!(disk.files.contains("/ws/a/x.png"));
}
