//! The error taxonomy shared by the traversal and transfer engines.

use vstd::prelude::*;
use vstd::string::StringExecFns;

verus! {

/// Every failure a filesystem operation of this crate can produce.
///
/// Each variant carries the offending path, so the caller can report which
/// entity failed and why.  `Io` carries the offending path or, for a failed
/// rename, the operating system's message; `WalkDirError` carries the
/// message of the underlying traversal failure.
#[derive(Debug, Clone, PartialEq, Eq)]
pub enum FsError {
    /// An underlying operating-system failure.
    Io(String),
    /// The named path does not exist.
    PathNotFound(String),
    /// The destination already exists and overwriting was not requested.
    FileAlreadyExists(String),
    /// Source and destination resolve to the same entity.
    SameFile(String),
    /// The destination exists but is marked read-only.
    PermissionError(String),
    /// The source is a directory where a regular file was required.
    NotAFile(String),
    /// The traversal root is a regular file, not a directory.
    NotADirectory(String),
    /// A failure while descending into a directory mid-walk.
    WalkDirError(String),
}

/// The one-line description of an error: a fixed phrase for its kind,
/// followed by what it carries.
pub open spec fn message_of(e: FsError) -> Seq<char> {
    match e {
        FsError::Io(p) => "IO error: "@ + p@,
        FsError::PathNotFound(p) => "Path was not found: "@ + p@,
        FsError::FileAlreadyExists(p) => "File already exists: "@ + p@,
        FsError::SameFile(p) => "Source and destination are the same: "@ + p@,
        FsError::PermissionError(p) => "You have no permission to edit that file: "@ + p@,
        FsError::NotAFile(p) => "Cannot operate on directory: "@ + p@,
        FsError::NotADirectory(p) => "Path is not a directory: "@ + p@,
        FsError::WalkDirError(m) => "Error while walking directory: "@ + m@,
    }
}

impl FsError {
    /// The error's one-line description, for a caller that reports it.
    pub fn describe(&self) -> (r: String)
        ensures
            r@ == message_of(*self),
    {
        match self {
            FsError::Io(p) => String::from_str("IO error: ").concat(p.as_str()),
            FsError::PathNotFound(p) => String::from_str("Path was not found: ").concat(p.as_str()),
            FsError::FileAlreadyExists(p) => String::from_str("File already exists: ").concat(
                p.as_str(),
            ),
            FsError::SameFile(p) => String::from_str("Source and destination are the same: ")
                .concat(p.as_str()),
            FsError::PermissionError(p) => String::from_str(
                "You have no permission to edit that file: ",
            ).concat(p.as_str()),
            FsError::NotAFile(p) => String::from_str("Cannot operate on directory: ").concat(
                p.as_str(),
            ),
            FsError::NotADirectory(p) => String::from_str("Path is not a directory: ").concat(
                p.as_str(),
            ),
            FsError::WalkDirError(m) => String::from_str("Error while walking directory: ").concat(
                m.as_str(),
            ),
        }
    }
}

} // verus!
