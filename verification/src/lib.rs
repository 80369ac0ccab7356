//! A filesystem traversal and file-transfer engine.
//!
//! The crate walks directory trees to discover and filter regular files,
//! and validates copy / move / symlink / hardlink transfers between two
//! paths.  Every failure is reported through the closed [`FsError`]
//! taxonomy, so callers match on the cause rather than on message text.
//!
//! Directory enumeration is done by the `walkdir` crate, and existence,
//! identity and permission checks by `std::path::Path` probes; both stand
//! behind small trusted declarations.  Everything that decides —
//! pre-flight validation, name and extension matching, filtering,
//! transfer planning — is verified code with explicit contracts.  The
//! mutations a validated transfer still has to perform are named by a
//! [`mv::TransferPlan`] for an unverified caller to execute.

pub mod fserror;
pub mod pathtext;
pub mod fd;
pub mod mv;

pub use fserror::FsError;
pub use fd::{walk, walk_lenient, find_match_one, find_match_all, find_ext, find_pattern,
    find_audio_files, FileWalk, LenientFileWalk};
pub use mv::{transfer_file, TransferMode, TransferPlan, TransferOp, RenameOutcome, RenameFollowup,
    move_rename_followup, validate_source, validate_destination, validate_writable};
