//! The transfer engine: validated copy, move, symlink and hardlink
//! transfers between two paths, unified behind a mode-dispatched entry
//! point.
//!
//! Every mode runs its pre-flight validation here, in verified code, over
//! probes of the filesystem; the outcome is a [`TransferPlan`] that names
//! the mutations left to perform, or the exact [`FsError`] that rejected
//! the transfer.  A failed validation plans no mutation at all, so both
//! paths are left in their pre-call state.

use vstd::prelude::*;
use crate::fserror::FsError;
use crate::fd::{path_exists, path_is_file};

verus! {

/// The path text of a path's parent: the path without its final
/// component, or `None` where there is none (for instance at a root).
pub uninterp spec fn parent_of(p: Seq<char>) -> Option<Seq<char>>;

/// Relies on `std::path::Path::parent`: the path without its final
/// component, here converted to text.  The result is a function of the
/// path text alone; no filesystem state is consulted.
#[verifier::external_body]
fn path_parent(p: &str) -> (r: Option<String>)
    ensures
        (r is Some) == (parent_of(p@) is Some),
        r matches Some(s) ==> parent_of(p@) == Some(s@),
{
    std::path::Path::new(p).parent().map(|q| q.to_string_lossy().into_owned())
}

/// Relies on `std::path::Path::is_dir`: whether the path points at a
/// directory, after following symbolic links.
#[verifier::external_body]
fn path_is_dir(p: &str) -> bool {
    std::path::Path::new(p).is_dir()
}

/// Relies on `std::path::Path::metadata`: whether metadata for the path
/// can be read at all.
#[verifier::external_body]
fn path_metadata_ok(p: &str) -> bool {
    std::path::Path::new(p).metadata().is_ok()
}

/// Relies on `std::path::Path::metadata` and `Permissions::readonly`:
/// whether the entry at the path is marked read-only, or `None` where its
/// metadata cannot be read.
#[verifier::external_body]
fn path_readonly(p: &str) -> Option<bool> {
    match std::path::Path::new(p).metadata() {
        Ok(m) => Some(m.permissions().readonly()),
        Err(_) => None,
    }
}

/// Relies on `std::path::Path::canonicalize`: the canonical, absolute
/// form of the path with symbolic links resolved, as text, or `None`
/// where resolution fails (for instance when the path does not exist).
#[verifier::external_body]
fn canonical_of(p: &str) -> Option<String> {
    match std::path::Path::new(p).canonicalize() {
        Ok(q) => Some(q.to_string_lossy().into_owned()),
        Err(_) => None,
    }
}

/// The ways source validation can reject a transfer from `source`.
pub open spec fn source_failure(e: FsError, source: Seq<char>) -> bool {
    ||| (e matches FsError::PathNotFound(q) && q@ == source)
    ||| (e matches FsError::NotAFile(q) && q@ == source)
    ||| (e matches FsError::Io(q) && q@ == source)
}

/// The ways destination validation can reject a transfer onto `dest`.
pub open spec fn destination_failure(e: FsError, dest: Seq<char>, allow_overwrite: bool) -> bool {
    ||| (e matches FsError::SameFile(q) && q@ == dest)
    ||| (e matches FsError::PathNotFound(q) && parent_of(dest) == Some(q@))
    ||| (e matches FsError::FileAlreadyExists(q) && q@ == dest && !allow_overwrite)
}

/// The ways the writability check can reject overwriting `dest`.
pub open spec fn writable_failure(e: FsError, dest: Seq<char>) -> bool {
    ||| (e matches FsError::Io(q) && q@ == dest)
    ||| (e matches FsError::PermissionError(q) && q@ == dest)
}

/// The source-validation verdict, given what the probes observed of
/// `path`: a transfer source must exist, must not be a directory, and its
/// metadata must be readable.
pub fn source_decision(exists: bool, is_dir: bool, readable: bool, path: &str) -> (r: Result<
    (),
    FsError,
>)
    ensures
        r is Ok <==> (exists && !is_dir && readable),
        !exists ==> (r matches Err(FsError::PathNotFound(q)) && q@ == path@),
        exists && is_dir ==> (r matches Err(FsError::NotAFile(q)) && q@ == path@),
        exists && !is_dir && !readable ==> (r matches Err(FsError::Io(q)) && q@ == path@),
{
    if !exists {
        Err(FsError::PathNotFound(path.to_owned()))
    } else if is_dir {
        Err(FsError::NotAFile(path.to_owned()))
    } else if !readable {
        Err(FsError::Io(path.to_owned()))
    } else {
        Ok(())
    }
}

/// The destination-validation verdict, given what the probes observed: a
/// destination may not be the same entity as the source, its parent must
/// exist, and overwriting an existing destination must have been
/// requested.  Same-file detection wins over every other rejection,
/// whatever the overwrite flag says.
pub fn destination_decision(
    same_file: bool,
    missing_parent: Option<&String>,
    dest_exists: bool,
    allow_overwrite: bool,
    dest: &str,
) -> (r: Result<(), FsError>)
    ensures
        r is Ok <==> (!same_file && missing_parent is None && !(dest_exists && !allow_overwrite)),
        same_file ==> (r matches Err(FsError::SameFile(q)) && q@ == dest@),
        !same_file ==> (missing_parent matches Some(pp) ==> (r matches Err(
            FsError::PathNotFound(q),
        ) && q@ == pp@)),
        !same_file && missing_parent is None && dest_exists && !allow_overwrite ==> (r matches Err(
            FsError::FileAlreadyExists(q),
        ) && q@ == dest@),
{
    if same_file {
        Err(FsError::SameFile(dest.to_owned()))
    } else {
        match missing_parent {
            Some(pp) => Err(FsError::PathNotFound(pp.clone())),
            None => {
                if dest_exists && !allow_overwrite {
                    Err(FsError::FileAlreadyExists(dest.to_owned()))
                } else {
                    Ok(())
                }
            },
        }
    }
}

/// The writability verdict for an overwrite, given what the probes
/// observed of the destination: a missing destination needs no check, an
/// unreadable one is an `Io` failure, and a read-only one may not be
/// replaced.
pub fn writable_decision(dest_exists: bool, readonly: Option<bool>, path: &str) -> (r: Result<
    (),
    FsError,
>)
    ensures
        r is Ok <==> (!dest_exists || readonly == Some(false)),
        dest_exists && readonly is None ==> (r matches Err(FsError::Io(q)) && q@ == path@),
        dest_exists && readonly == Some(true) ==> (r matches Err(FsError::PermissionError(q))
            && q@ == path@),
{
    if !dest_exists {
        Ok(())
    } else {
        match readonly {
            None => Err(FsError::Io(path.to_owned())),
            Some(true) => Err(FsError::PermissionError(path.to_owned())),
            Some(false) => Ok(()),
        }
    }
}

/// Checks that `path` exists, is not a directory, and has readable
/// metadata, as every transfer source must.
pub fn validate_source(path: &str) -> (r: Result<(), FsError>)
    ensures
        r matches Err(e) ==> source_failure(e, path@),
{
    let exists = path_exists(path);
    let is_dir = path_is_dir(path);
    let readable = path_metadata_ok(path);
    source_decision(exists, is_dir, readable, path)
}

/// Checks that `dest` does not resolve to the same entity as `source`,
/// that its parent directory exists, and that it does not already exist
/// unless overwriting was requested.
pub fn validate_destination(source: &str, dest: &str, allow_overwrite: bool) -> (r: Result<
    (),
    FsError,
>)
    ensures
        r matches Err(e) ==> destination_failure(e, dest@, allow_overwrite),
{
    let src_canon = canonical_of(source);
    let dst_canon = canonical_of(dest);
    let same_file = match (&src_canon, &dst_canon) {
        (Option::Some(a), Option::Some(b)) => a == b,
        _ => false,
    };
    let parent = path_parent(dest);
    let missing_parent: Option<&String> = match &parent {
        Option::Some(pp) => {
            if path_exists(pp.as_str()) {
                Option::None
            } else {
                Option::Some(pp)
            }
        },
        Option::None => Option::None,
    };
    let dest_exists = path_exists(dest);
    destination_decision(same_file, missing_parent, dest_exists, allow_overwrite, dest)
}

/// Checks that the entry at `path`, if any, may be replaced: its metadata
/// must be readable and it must not be marked read-only.
pub fn validate_writable(path: &str) -> (r: Result<(), FsError>)
    ensures
        r matches Err(e) ==> writable_failure(e, path@),
{
    let exists = path_exists(path);
    let readonly = path_readonly(path);
    let r = writable_decision(exists, readonly, path);
    proof {
        if r is Err && readonly is Some {
            assert(readonly == Some(true));
        }
    }
    r
}

/// The closed set of transfer modes.
#[derive(Debug, Clone, Copy, PartialEq, Eq, Structural)]
pub enum TransferMode {
    /// Duplicate the file's content; the source is left intact.
    Copy,
    /// Rename the file, falling back to copy-then-delete across volumes.
    Move,
    /// Create a symbolic link at the destination pointing at the source.
    Symlink,
    /// Create another directory entry for the same underlying file.
    Hardlink,
}

/// The one mutation a validated transfer still has to perform.
#[derive(Debug, Clone, Copy, PartialEq, Eq, Structural)]
pub enum TransferOp {
    /// Duplicate the source's content to the destination, overwriting a
    /// destination that still exists.
    CopyContents,
    /// Rename the source to the destination; see [`move_rename_followup`]
    /// for what a failed rename asks for.
    Rename,
    /// Create a symbolic link at the destination pointing at the source.
    CreateSymlink,
    /// Create a hard link at the destination to the source's content.
    CreateHardlink,
}

/// What a fully validated transfer still has to do: optionally remove
/// the destination first, then perform the one mutation of its mode.
#[derive(Debug, Clone, Copy, PartialEq, Eq, Structural)]
pub struct TransferPlan {
    /// Remove the existing destination entry before the mutation.  Only
    /// ever set when the caller requested overwriting.
    pub remove_dest_first: bool,
    /// The mutation itself.
    pub op: TransferOp,
}

/// How an attempted rename of a move ended: it renamed, it failed
/// because source and destination reside on different storage volumes,
/// or it failed for any other reason, with the system's message.
pub enum RenameOutcome {
    Renamed,
    CrossDevice,
    Failed(String),
}

/// What a move does after its rename was attempted.
pub enum RenameFollowup {
    /// The rename succeeded; the move is complete.
    Done,
    /// Cross-device failure: copy the source's content to the
    /// destination, then delete the source, as a non-atomic two-step
    /// fallback.
    CopyThenDeleteSource,
    /// Any other failure is surfaced as `Io`, without a fallback.
    Fail(FsError),
}

/// The single rule of the move fallback: only a cross-device failure
/// falls back to copy-then-delete; any other rename failure is surfaced
/// as `Io` carrying the system's message.
pub fn move_rename_followup(outcome: RenameOutcome) -> (r: RenameFollowup)
    ensures
        outcome is Renamed <==> r is Done,
        outcome is CrossDevice <==> r is CopyThenDeleteSource,
        outcome matches RenameOutcome::Failed(m) ==> (r matches RenameFollowup::Fail(e)
            && e matches FsError::Io(q) && q@ == m@),
{
    match outcome {
        RenameOutcome::Renamed => RenameFollowup::Done,
        RenameOutcome::CrossDevice => RenameFollowup::CopyThenDeleteSource,
        RenameOutcome::Failed(m) => RenameFollowup::Fail(FsError::Io(m)),
    }
}

/// Validates a copy of `source` onto `dest` and plans it.
///
/// Copy never removes the destination first: an allowed overwrite is
/// done by the copy primitive itself.
pub fn plan_copy(source: &str, dest: &str, overwrite: bool) -> (r: Result<TransferPlan, FsError>)
    ensures
        r matches Ok(p) ==> p == (TransferPlan {
            remove_dest_first: false,
            op: TransferOp::CopyContents,
        }),
        r matches Err(e) ==> (source_failure(e, source@) || destination_failure(
            e,
            dest@,
            overwrite,
        ) || writable_failure(e, dest@)),
{
    match validate_source(source) {
        Err(e) => {
            return Err(e);
        },
        Ok(()) => {},
    }
    match validate_destination(source, dest, overwrite) {
        Err(e) => {
            return Err(e);
        },
        Ok(()) => {},
    }
    if overwrite && path_exists(dest) {
        match validate_writable(dest) {
            Err(e) => {
                return Err(e);
            },
            Ok(()) => {},
        }
    }
    Ok(TransferPlan { remove_dest_first: false, op: TransferOp::CopyContents })
}

/// Validates a move of `source` onto `dest` and plans it: remove the
/// destination first when an allowed overwrite needs it, then rename.
pub fn plan_move(source: &str, dest: &str, overwrite: bool) -> (r: Result<TransferPlan, FsError>)
    ensures
        r matches Ok(p) ==> p.op == TransferOp::Rename,
        r matches Ok(p) ==> (p.remove_dest_first ==> overwrite),
        r matches Err(e) ==> (source_failure(e, source@) || destination_failure(
            e,
            dest@,
            overwrite,
        ) || writable_failure(e, dest@)),
{
    match validate_source(source) {
        Err(e) => {
            return Err(e);
        },
        Ok(()) => {},
    }
    match validate_destination(source, dest, overwrite) {
        Err(e) => {
            return Err(e);
        },
        Ok(()) => {},
    }
    let remove_first = overwrite && path_exists(dest);
    if remove_first {
        match validate_writable(dest) {
            Err(e) => {
                return Err(e);
            },
            Ok(()) => {},
        }
    }
    Ok(TransferPlan { remove_dest_first: remove_first, op: TransferOp::Rename })
}

/// Validates a link of `source` at `dest` and plans it; shared by the
/// symlink and hardlink modes.  Links run the same three-stage
/// validation as every other mode — in particular, a destination that
/// resolves to the same entity as the source is rejected with
/// `SameFile`, so no link can target its own source — and remove an
/// existing destination only on an allowed overwrite.
fn plan_link(source: &str, dest: &str, overwrite: bool, op: TransferOp) -> (r: Result<
    TransferPlan,
    FsError,
>)
    ensures
        r matches Ok(p) ==> p.op == op,
        r matches Ok(p) ==> (p.remove_dest_first ==> overwrite),
        r matches Err(e) ==> (source_failure(e, source@) || destination_failure(
            e,
            dest@,
            overwrite,
        ) || writable_failure(e, dest@)),
{
    match validate_source(source) {
        Err(e) => {
            return Err(e);
        },
        Ok(()) => {},
    }
    match validate_destination(source, dest, overwrite) {
        Err(e) => {
            return Err(e);
        },
        Ok(()) => {},
    }
    let remove_first = overwrite && path_exists(dest);
    if remove_first {
        match validate_writable(dest) {
            Err(e) => {
                return Err(e);
            },
            Ok(()) => {},
        }
    }
    Ok(TransferPlan { remove_dest_first: remove_first, op })
}

/// Validates a symbolic link of `source` at `dest` and plans it.
/// Available only where the host platform supports symbolic links.
pub fn plan_symlink(source: &str, dest: &str, overwrite: bool) -> (r: Result<TransferPlan, FsError>)
    ensures
        r matches Ok(p) ==> p.op == TransferOp::CreateSymlink,
        r matches Ok(p) ==> (p.remove_dest_first ==> overwrite),
        r matches Err(e) ==> (source_failure(e, source@) || destination_failure(
            e,
            dest@,
            overwrite,
        ) || writable_failure(e, dest@)),
{
    plan_link(source, dest, overwrite, TransferOp::CreateSymlink)
}

/// Validates a hard link of `source` at `dest` and plans it.  The link
/// itself requires both paths on one volume, a platform constraint the
/// executing caller surfaces as `Io`.
pub fn plan_hardlink(source: &str, dest: &str, overwrite: bool) -> (r: Result<
    TransferPlan,
    FsError,
>)
    ensures
        r matches Ok(p) ==> p.op == TransferOp::CreateHardlink,
        r matches Ok(p) ==> (p.remove_dest_first ==> overwrite),
        r matches Err(e) ==> (source_failure(e, source@) || destination_failure(
            e,
            dest@,
            overwrite,
        ) || writable_failure(e, dest@)),
{
    plan_link(source, dest, overwrite, TransferOp::CreateHardlink)
}

/// The mutation each transfer mode performs once validated.
pub open spec fn op_of_mode(mode: TransferMode) -> TransferOp {
    match mode {
        TransferMode::Copy => TransferOp::CopyContents,
        TransferMode::Move => TransferOp::Rename,
        TransferMode::Symlink => TransferOp::CreateSymlink,
        TransferMode::Hardlink => TransferOp::CreateHardlink,
    }
}

/// The mode-dispatched entry point: validates a transfer of `source`
/// onto `dest` in `mode` and plans it, adding no validation of its own
/// beyond what the mode's own planner performs.
pub fn transfer_file(source: &str, dest: &str, mode: TransferMode, overwrite: bool) -> (r: Result<
    TransferPlan,
    FsError,
>)
    ensures
        r matches Ok(p) ==> p.op == op_of_mode(mode),
        r matches Ok(p) ==> (p.remove_dest_first ==> overwrite),
        mode == TransferMode::Copy ==> (r matches Ok(p) ==> !p.remove_dest_first),
        r matches Err(e) ==> (source_failure(e, source@) || destination_failure(
            e,
            dest@,
            overwrite,
        ) || writable_failure(e, dest@)),
{
    match mode {
        TransferMode::Copy => plan_copy(source, dest, overwrite),
        TransferMode::Move => plan_move(source, dest, overwrite),
        TransferMode::Symlink => plan_symlink(source, dest, overwrite),
        TransferMode::Hardlink => plan_hardlink(source, dest, overwrite),
    }
}

} // verus!
