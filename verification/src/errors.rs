//! Error vocabulary of the mirroring engine.
//!
//! Per-path failures are accumulated as [`ProcessPathError`] values and
//! surfaced together at the end of a run; fatal root-validation failures
//! short-circuit as the dedicated variants of [`Error`].

use vstd::prelude::*;

verus! {

/// A defect in the engine itself: a path produced by walking a root could
/// not be stripped of that root again.
#[derive(Debug, Clone, PartialEq, Eq)]
pub enum InvariantError {
    CannotStripPrefixOfPath { path_root: String, path: String },
}

/// One failed path, recorded during a run and reported at its end.
///
/// `not_processed` names the path whose subtree or content was not brought
/// up to date; later phases treat everything below it as unreachable.
#[derive(Debug, Clone, PartialEq, Eq)]
pub struct ProcessPathError {
    pub not_processed: Option<String>,
    pub kind: FileBackupErrorKind,
}

/// What went wrong with a single path.
#[derive(Debug, Clone, PartialEq, Eq)]
pub enum FileBackupErrorKind {
    CannotCreateDestinationDir { destination: String, io_error: String },
    CannotReadDirectoryContent { io_error: String },
    CannotGetDirEntry { in_dir: String, io_error: String },
    DestinationForSourceDirExistsAsFile { destination: String },
    CannotCopyFile { to: String, io_error: String },
    InvariantBroken(InvariantError),
    CannotDeleteDirectory { io_error: String },
    CannotDeleteFile { io_error: String },
}

/// The outcome of a whole run: either a fatal root-validation failure, or
/// every per-path error the run accumulated.
#[derive(Debug, Clone, PartialEq, Eq)]
pub enum Error {
    FileBackupErrors(Vec<ProcessPathError>),
    SourceRootPathDoesNotExist(String),
    CannotReadDirectoryContent(String, String),
    CannotCreateRootDestinationDir(String, String),
    RootDestinatinIsNotADirectory(String),
}

/// The error value recorded when stripping `root` from `path` fails.
pub open spec fn is_strip_error(e: ProcessPathError, root: Seq<char>, path: Seq<char>) -> bool {
    &&& e.not_processed matches Some(p) && p@ == path
    &&& e.kind matches FileBackupErrorKind::InvariantBroken(
        InvariantError::CannotStripPrefixOfPath { path_root, path: failed },
    ) && path_root@ == root && failed@ == path
}

/// Builds the error recorded when a walked path does not begin with the
/// root it was walked from.
pub fn strip_prefix_error(root: &str, path: &str) -> (e: ProcessPathError)
    ensures
        is_strip_error(e, root@, path@),
{
    ProcessPathError {
        not_processed: Some(path.to_owned()),
        kind: FileBackupErrorKind::InvariantBroken(InvariantError::CannotStripPrefixOfPath {
            path_root: root.to_owned(),
            path: path.to_owned(),
        }),
    }
}

} // verus!
