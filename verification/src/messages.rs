//! The structured events a run emits.
//!
//! The engine's only externally visible vocabulary is the closed [`Message`]
//! union: warnings, informational events, progress events and per-path
//! errors. Messages are transient; a caller-supplied [`MessageSender`]
//! consumes them and the engine never looks at them again.

use vstd::prelude::*;

use crate::errors::ProcessPathError;

verus! {

/// Which phase a progress event belongs to.
#[derive(Debug, Clone, PartialEq, Eq)]
pub enum ProgressType {
    CreatingDirectories,
    CopingFiles,
    DeletingDirs,
    DeletingFiles,
}

/// One unit of completed work within a phase.
#[derive(Debug, Clone, PartialEq, Eq)]
pub enum Increment {
    SkippingFileNoModification { source: String, destination: String },
    FileCopied { source: String, destination: String },
    DirCreated { source: String, destination: String },
    DestinationDirAlreadyExists { source: String, destination: String },
    DeletedFile(String),
    DeletedDir(String),
    DirectoryAlreadyDeleted(String),
}

/// The terminal event of a single long-running piece of work.
#[derive(Debug, Clone, PartialEq, Eq)]
pub enum ProgressEnd {
    FileCopied { source: String, destination: String },
}

/// A progress event: a phase starts with its total, advances one unit at a
/// time, and ends.
#[derive(Debug, Clone, PartialEq, Eq)]
pub enum Progress {
    Start(usize, ProgressType),
    Increment(Increment),
    End(ProgressType),
}

/// An informational event: work that is about to happen or just happened.
#[derive(Debug, Clone, PartialEq, Eq)]
pub enum Info {
    CreatingDestinationDir(String),
    DestinationDirCreated(String),
    StartCopingFile { source: String, destination: String },
    StartDeletingDir(String),
    StartDeletingFile(String),
    StartCreatingDir { source: String, destination: String },
}

/// An advisory condition, always resolved by a conservative fallback
/// (copying anyway) rather than silent divergence.
#[derive(Debug, Clone, PartialEq, Eq)]
pub enum Warning {
    CannotGetMetadata { source: String, destination: String, copy_anyway: bool },
    CannotGetHash { source: String, destination: String, copy_anyway: bool },
    CannotCopyModifiedTime { source: String, destination: String },
}

/// The closed union of everything a run can report while it is running.
#[derive(Debug, Clone, PartialEq, Eq)]
pub enum Message {
    Warning(Warning),
    Info(Info),
    Progress(Progress),
    Error(ProcessPathError),
}

/// An abstract sink of messages; the engine never blocks on it. Because
/// concurrent drivers may deliver messages from several workers, an
/// implementation must tolerate concurrent invocation.
pub trait MessageSender {
    fn send(&self, message: Message);
}

} // verus!
