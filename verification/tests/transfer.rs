//! Tests of the transfer engine's validation and planning against a real
//! filesystem.  Executing a plan's mutations is the embedding program's
//! job, so these tests check the planning verdicts.

use flacman_fs::{move_rename_followup, transfer_file, validate_destination, validate_source,
    validate_writable, FsError, RenameFollowup, RenameOutcome, TransferMode, TransferOp};
use flacman_fs::mv::{destination_decision, source_decision, writable_decision, plan_copy,
    plan_move, plan_symlink, plan_hardlink};
use std::io::Write;

fn touch(dir: &std::path::Path, name: &str) {
    let f = tempfile::NamedTempFile::new_in(dir).unwrap();
    f.persist(dir.join(name)).unwrap();
}

fn touch_with_content(dir: &std::path::Path, name: &str, content: &[u8]) {
    let mut f = tempfile::NamedTempFile::new_in(dir).unwrap();
    f.write_all(content).unwrap();
    f.persist(dir.join(name)).unwrap();
}

fn path_str(dir: &std::path::Path, name: &str) -> String {
    dir.join(name).to_str().unwrap().to_owned()
}

#[test]
fn test_copy_plan_fresh_dest() {
    let dir = tempfile::tempdir().unwrap();
    touch_with_content(dir.path(), "source.txt", b"test content");

    let src = path_str(dir.path(), "source.txt");
    let dst = path_str(dir.path(), "dest.txt");
    let plan = transfer_file(&src, &dst, TransferMode::Copy, false).unwrap();
    assert_eq!(plan.op, TransferOp::CopyContents);
    assert!(!plan.remove_dest_first);
    // planning alone mutates nothing
    assert!(dir.path().join("source.txt").exists());
    assert!(!dir.path().join("dest.txt").exists());
}

#[test]
fn test_copy_plan_no_overwrite() {
    let dir = tempfile::tempdir().unwrap();
    touch(dir.path(), "source.txt");
    touch_with_content(dir.path(), "dest.txt", b"keep me");

    let src = path_str(dir.path(), "source.txt");
    let dst = path_str(dir.path(), "dest.txt");
    let result = transfer_file(&src, &dst, TransferMode::Copy, false);
    assert!(matches!(result, Err(FsError::FileAlreadyExists(_))));
    // the pre-existing destination is untouched in this failure case
    assert_eq!(dir.path().join("dest.txt").metadata().unwrap().len(), 7);
}

#[test]
fn test_copy_plan_overwrite_allowed() {
    let dir = tempfile::tempdir().unwrap();
    touch(dir.path(), "source.txt");
    touch(dir.path(), "dest.txt");

    let src = path_str(dir.path(), "source.txt");
    let dst = path_str(dir.path(), "dest.txt");
    let plan = transfer_file(&src, &dst, TransferMode::Copy, true).unwrap();
    assert_eq!(plan.op, TransferOp::CopyContents);
    assert!(!plan.remove_dest_first);
}

#[test]
fn test_move_plan_fresh_dest() {
    let dir = tempfile::tempdir().unwrap();
    touch(dir.path(), "source.txt");

    let src = path_str(dir.path(), "source.txt");
    let dst = path_str(dir.path(), "dest.txt");
    let plan = transfer_file(&src, &dst, TransferMode::Move, false).unwrap();
    assert_eq!(plan.op, TransferOp::Rename);
    assert!(!plan.remove_dest_first);
}

#[test]
fn test_move_plan_overwrite_removes_dest_first() {
    let dir = tempfile::tempdir().unwrap();
    touch(dir.path(), "source.txt");
    touch(dir.path(), "dest.txt");

    let src = path_str(dir.path(), "source.txt");
    let dst = path_str(dir.path(), "dest.txt");
    let plan = transfer_file(&src, &dst, TransferMode::Move, true).unwrap();
    assert_eq!(plan.op, TransferOp::Rename);
    assert!(plan.remove_dest_first);
}

#[test]
fn test_same_file_detection() {
    let dir = tempfile::tempdir().unwrap();
    touch(dir.path(), "p.txt");

    let p = path_str(dir.path(), "p.txt");
    let result = transfer_file(&p, &p, TransferMode::Move, true);
    assert!(matches!(result, Err(FsError::SameFile(_))));
    assert!(dir.path().join("p.txt").exists());
}

#[test]
fn test_source_missing() {
    let dir = tempfile::tempdir().unwrap();
    let src = path_str(dir.path(), "no_such.txt");
    let dst = path_str(dir.path(), "dest.txt");
    let result = transfer_file(&src, &dst, TransferMode::Copy, false);
    assert!(matches!(result, Err(FsError::PathNotFound(_))));
}

#[test]
fn test_source_is_directory() {
    let dir = tempfile::tempdir().unwrap();
    let sub = tempfile::tempdir_in(dir.path()).unwrap();
    let result = validate_source(sub.path().to_str().unwrap());
    assert!(matches!(result, Err(FsError::NotAFile(_))));
}

#[test]
fn test_dest_parent_missing() {
    let dir = tempfile::tempdir().unwrap();
    touch(dir.path(), "source.txt");

    let src = path_str(dir.path(), "source.txt");
    let dst = dir.path().join("no_such_dir").join("dest.txt");
    let result = transfer_file(&src, dst.to_str().unwrap(), TransferMode::Copy, false);
    match result {
        Err(FsError::PathNotFound(p)) => {
            // the error names the missing parent, not the destination
            assert!(p.ends_with("no_such_dir"));
        },
        other => panic!("expected PathNotFound, got {:?}", other),
    }
}

#[test]
fn test_hardlink_plan() {
    let dir = tempfile::tempdir().unwrap();
    touch(dir.path(), "source.txt");

    let src = path_str(dir.path(), "source.txt");
    let dst = path_str(dir.path(), "link.txt");
    let plan = transfer_file(&src, &dst, TransferMode::Hardlink, false).unwrap();
    assert_eq!(plan.op, TransferOp::CreateHardlink);
    assert!(!plan.remove_dest_first);
    assert!(dir.path().join("source.txt").exists());
}

#[test]
fn test_hardlink_plan_existing_dest_needs_overwrite() {
    let dir = tempfile::tempdir().unwrap();
    touch(dir.path(), "source.txt");
    touch(dir.path(), "link.txt");

    let src = path_str(dir.path(), "source.txt");
    let dst = path_str(dir.path(), "link.txt");
    let refused = transfer_file(&src, &dst, TransferMode::Hardlink, false);
    assert!(matches!(refused, Err(FsError::FileAlreadyExists(_))));
    let plan = transfer_file(&src, &dst, TransferMode::Hardlink, true).unwrap();
    assert_eq!(plan.op, TransferOp::CreateHardlink);
    assert!(plan.remove_dest_first);
}

#[test]
fn test_symlink_plan() {
    let dir = tempfile::tempdir().unwrap();
    touch(dir.path(), "source.txt");

    let src = path_str(dir.path(), "source.txt");
    let dst = path_str(dir.path(), "sym.txt");
    let plan = transfer_file(&src, &dst, TransferMode::Symlink, false).unwrap();
    assert_eq!(plan.op, TransferOp::CreateSymlink);
    assert!(!plan.remove_dest_first);
}

#[test]
fn test_validate_destination_overwrite() {
    let dir = tempfile::tempdir().unwrap();
    touch(dir.path(), "source.txt");
    touch(dir.path(), "dest.txt");

    let src = path_str(dir.path(), "source.txt");
    let dst = path_str(dir.path(), "dest.txt");
    assert!(matches!(
        validate_destination(&src, &dst, false),
        Err(FsError::FileAlreadyExists(_))
    ));
    assert!(validate_destination(&src, &dst, true).is_ok());
}

#[test]
fn test_validate_writable_missing_dest() {
    let dir = tempfile::tempdir().unwrap();
    let dst = path_str(dir.path(), "not_there.txt");
    assert!(validate_writable(&dst).is_ok());
}

#[test]
fn test_source_decision_verdicts() {
    assert!(source_decision(true, false, true, "s").is_ok());
    assert!(matches!(
        source_decision(false, false, true, "s"),
        Err(FsError::PathNotFound(p)) if p == "s"
    ));
    assert!(matches!(
        source_decision(true, true, true, "s"),
        Err(FsError::NotAFile(p)) if p == "s"
    ));
    assert!(matches!(
        source_decision(true, false, false, "s"),
        Err(FsError::Io(p)) if p == "s"
    ));
}

#[test]
fn test_destination_decision_verdicts() {
    let parent = String::from("par");
    assert!(destination_decision(false, None, false, false, "d").is_ok());
    // same-file wins even when overwriting was requested
    assert!(matches!(
        destination_decision(true, None, true, true, "d"),
        Err(FsError::SameFile(p)) if p == "d"
    ));
    assert!(matches!(
        destination_decision(false, Some(&parent), false, false, "d"),
        Err(FsError::PathNotFound(p)) if p == "par"
    ));
    assert!(matches!(
        destination_decision(false, None, true, false, "d"),
        Err(FsError::FileAlreadyExists(p)) if p == "d"
    ));
    assert!(destination_decision(false, None, true, true, "d").is_ok());
}

#[test]
fn test_writable_decision_verdicts() {
    assert!(writable_decision(false, None, "d").is_ok());
    assert!(writable_decision(true, Some(false), "d").is_ok());
    assert!(matches!(
        writable_decision(true, Some(true), "d"),
        Err(FsError::PermissionError(p)) if p == "d"
    ));
    assert!(matches!(
        writable_decision(true, None, "d"),
        Err(FsError::Io(p)) if p == "d"
    ));
}

#[test]
fn test_move_rename_followup_rules() {
    assert!(matches!(move_rename_followup(RenameOutcome::Renamed), RenameFollowup::Done));
    assert!(matches!(
        move_rename_followup(RenameOutcome::CrossDevice),
        RenameFollowup::CopyThenDeleteSource
    ));
    assert!(matches!(
        move_rename_followup(RenameOutcome::Failed(String::from("boom"))),
        RenameFollowup::Fail(FsError::Io(m)) if m == "boom"
    ));
}

#[test]
fn test_mode_planners_agree_with_dispatch() {
    let dir = tempfile::tempdir().unwrap();
    touch(dir.path(), "source.txt");
    let src = path_str(dir.path(), "source.txt");
    let dst = path_str(dir.path(), "dest.txt");

    assert_eq!(
        plan_copy(&src, &dst, false).unwrap(),
        transfer_file(&src, &dst, TransferMode::Copy, false).unwrap()
    );
    assert_eq!(
        plan_move(&src, &dst, false).unwrap(),
        transfer_file(&src, &dst, TransferMode::Move, false).unwrap()
    );
    assert_eq!(
        plan_symlink(&src, &dst, false).unwrap(),
        transfer_file(&src, &dst, TransferMode::Symlink, false).unwrap()
    );
    assert_eq!(
        plan_hardlink(&src, &dst, false).unwrap(),
        transfer_file(&src, &dst, TransferMode::Hardlink, false).unwrap()
    );
}

#[test]
fn test_error_descriptions() {
    assert_eq!(FsError::Io(String::from("/x")).describe(), "IO error: /x");
    assert_eq!(FsError::PathNotFound(String::from("/x")).describe(), "Path was not found: /x");
    assert_eq!(
        FsError::FileAlreadyExists(String::from("d")).describe(),
        "File already exists: d"
    );
    assert_eq!(
        FsError::SameFile(String::from("d")).describe(),
        "Source and destination are the same: d"
    );
    assert_eq!(
        FsError::PermissionError(String::from("d")).describe(),
        "You have no permission to edit that file: d"
    );
    assert_eq!(FsError::NotAFile(String::from("d")).describe(), "Cannot operate on directory: d");
    assert_eq!(
        FsError::NotADirectory(String::from("d")).describe(),
        "Path is not a directory: d"
    );
    assert_eq!(
        FsError::WalkDirError(String::from("m")).describe(),
        "Error while walking directory: m"
    );
}

#[test]
fn test_symlink_same_file() {
    let dir = tempfile::tempdir().unwrap();
    touch(dir.path(), "p.txt");

    let p = path_str(dir.path(), "p.txt");
    let result = transfer_file(&p, &p, TransferMode::Symlink, true);
    assert!(matches!(result, Err(FsError::SameFile(_))));
    assert!(dir.path().join("p.txt").exists());
}

#[test]
fn test_hardlink_same_file() {
    let dir = tempfile::tempdir().unwrap();
    touch(dir.path(), "p.txt");

    let p = path_str(dir.path(), "p.txt");
    let result = transfer_file(&p, &p, TransferMode::Hardlink, true);
    assert!(matches!(result, Err(FsError::SameFile(_))));
    assert!(dir.path().join("p.txt").exists());
}
