//! Recreating the source directory structure under the destination root.
//!
//! Directories arrive in breadth-first (parent-first) order. Each one is
//! first checked against the running failure list: once a directory could
//! not be mirrored, nothing below it is attempted, so unreachable subtrees
//! are filtered rather than partially materialised. The check is a cheap
//! prefix match because the failure list only grows and parents arrive
//! before children.

use vstd::prelude::*;

use crate::errors::{is_strip_error, FileBackupErrorKind, ProcessPathError};
use crate::messages::{Increment, Info, Message, Progress};
use crate::paths::{
    get_destination_file_path, path_starts_with, spec_joined, spec_path_starts_with, spec_rel_of,
};

verus! {

/// Does `e` mark a failed path that is `path` or an ancestor of it?
pub open spec fn failed_prefix_matches(e: ProcessPathError, path: Seq<char>) -> bool {
    e.not_processed matches Some(p) && spec_path_starts_with(path, p@)
}

/// Is `path` at or below some path already recorded as not processed?
pub open spec fn spec_under_failed(errors: Seq<ProcessPathError>, path: Seq<char>) -> bool {
    exists|i: int| 0 <= i < errors.len() && failed_prefix_matches(#[trigger] errors[i], path)
}

/// Is `path` at or below some path that `errors` records as not processed?
pub fn under_failed(errors: &Vec<ProcessPathError>, path: &str) -> (r: bool)
    ensures
        r == spec_under_failed(errors@, path@),
{
    let mut i: usize = 0;
    while i < errors.len()
        invariant
            0 <= i <= errors@.len(),
            forall|j: int| 0 <= j < i ==> !failed_prefix_matches(#[trigger] errors@[j], path@),
        decreases errors@.len() - i,
    {
        match &errors[i].not_processed {
            Some(p) => {
                if path_starts_with(path, p.as_str()) {
                    return true;
                }
            },
            None => {},
        }
        i += 1;
    }
    false
}

/// The error recorded when the destination of a source directory already
/// exists, but as something other than a directory.
pub open spec fn is_exists_as_file_error(
    e: ProcessPathError,
    source_directory: Seq<char>,
    destination: Seq<char>,
) -> bool {
    &&& e.not_processed matches Some(p) && p@ == source_directory
    &&& e.kind matches FileBackupErrorKind::DestinationForSourceDirExistsAsFile {
        destination: d,
    } && d@ == destination
}

/// The error recorded when a destination directory cannot be created.
pub open spec fn is_create_dir_error(
    e: ProcessPathError,
    source_directory: Seq<char>,
    destination: Seq<char>,
    io_error: Seq<char>,
) -> bool {
    &&& e.not_processed matches Some(p) && p@ == source_directory
    &&& e.kind matches FileBackupErrorKind::CannotCreateDestinationDir {
        destination: d,
        io_error: io,
    } && d@ == destination && io@ == io_error
}

/// What to do with one source directory.
#[derive(Debug, PartialEq, Eq)]
pub enum DirStart {
    /// An ancestor already failed: do nothing, not even an error.
    SkipUnderFailedAncestor,
    /// Probe the destination path and call [`DirectoryMirror::resolve_directory`].
    Probe { destination: String },
    /// The directory does not lie under the source root; the invariant-broken
    /// error was recorded.
    Failed,
}

/// What a probed destination requires.
#[derive(Debug, Clone, Copy, PartialEq, Eq)]
pub enum DirResolution {
    /// The destination directory is already there: nothing to do.
    AlreadyExists,
    /// The driver must create the destination directory and report back.
    Create,
    /// The destination exists as a non-directory; the error was recorded and
    /// the whole subtree is now unreachable.
    Failed,
}

/// The mirroring phase of one run. Directories are handed in one at a time,
/// in parent-first order; failures accumulate and fence off their subtrees.
pub struct DirectoryMirror {
    pub source_root: String,
    pub destination_root: String,
    /// Every failure so far; entries with a `not_processed` path mark
    /// unreachable subtrees.
    pub errors: Vec<ProcessPathError>,
}

impl DirectoryMirror {
    /// A fresh mirroring phase with no failures.
    pub fn new(source_root: String, destination_root: String) -> (r: Self)
        ensures
            r.source_root@ == source_root@,
            r.destination_root@ == destination_root@,
            r.errors@.len() == 0,
    {
        DirectoryMirror { source_root, destination_root, errors: Vec::new() }
    }

    /// Records an error the directory walker yielded.
    pub fn record_walk_error(&mut self, error: ProcessPathError)
        ensures
            final(self).source_root == old(self).source_root,
            final(self).destination_root == old(self).destination_root,
            final(self).errors@ == old(self).errors@.push(error),
    {
        self.errors.push(error);
    }

    /// Begins one source directory: skips it when an ancestor already
    /// failed, otherwise computes the destination path to probe. A
    /// directory outside the source root records the invariant-broken error
    /// (which also fences off its subtree).
    pub fn start_directory(&mut self, source_directory: &str) -> (r: DirStart)
        ensures
            final(self).source_root == old(self).source_root,
            final(self).destination_root == old(self).destination_root,
            spec_under_failed(old(self).errors@, source_directory@) ==> {
                &&& r is SkipUnderFailedAncestor
                &&& final(self).errors@ == old(self).errors@
            },
            !spec_under_failed(old(self).errors@, source_directory@) && spec_path_starts_with(
                source_directory@,
                old(self).source_root@,
            ) ==> {
                &&& (r matches DirStart::Probe { destination } && destination@ == spec_joined(
                    old(self).destination_root@,
                    spec_rel_of(old(self).source_root@, source_directory@),
                ))
                &&& final(self).errors@ == old(self).errors@
            },
            !spec_under_failed(old(self).errors@, source_directory@) && !spec_path_starts_with(
                source_directory@,
                old(self).source_root@,
            ) ==> {
                &&& r is Failed
                &&& final(self).errors@.len() == old(self).errors@.len() + 1
                &&& final(self).errors@.drop_last() == old(self).errors@
                &&& is_strip_error(
                    final(self).errors@.last(),
                    old(self).source_root@,
                    source_directory@,
                )
            },
    {
        if under_failed(&self.errors, source_directory) {
            return DirStart::SkipUnderFailedAncestor;
        }
        match get_destination_file_path(
            self.destination_root.as_str(),
            self.source_root.as_str(),
            source_directory,
        ) {
            Ok(destination) => DirStart::Probe { destination },
            Err(e) => {
                self.errors.push(e);
                proof {
                    assert(self.errors@.drop_last() =~= old(self).errors@);
                }
                DirStart::Failed
            },
        }
    }

    /// Resolves a probed destination: a directory already there is counted
    /// and skipped; a non-directory in the way is an error that fences off
    /// the subtree; an absent destination obliges the driver to create it.
    pub fn resolve_directory(
        &mut self,
        source_directory: &str,
        destination: &str,
        destination_exists: bool,
        destination_is_dir: bool,
    ) -> (r: (DirResolution, Option<Message>))
        ensures
            final(self).source_root == old(self).source_root,
            final(self).destination_root == old(self).destination_root,
            destination_exists && destination_is_dir ==> {
                &&& r.0 is AlreadyExists
                &&& final(self).errors@ == old(self).errors@
                &&& (r.1 matches Some(
                    Message::Progress(
                        Progress::Increment(
                            Increment::DestinationDirAlreadyExists { source, destination: d },
                        ),
                    ),
                ) && source@ == source_directory@ && d@ == destination@)
            },
            destination_exists && !destination_is_dir ==> {
                &&& r.0 is Failed
                &&& final(self).errors@.len() == old(self).errors@.len() + 1
                &&& final(self).errors@.drop_last() == old(self).errors@
                &&& is_exists_as_file_error(
                    final(self).errors@.last(),
                    source_directory@,
                    destination@,
                )
                &&& r.1 is None
            },
            !destination_exists ==> {
                &&& r.0 is Create
                &&& final(self).errors@ == old(self).errors@
                &&& (r.1 matches Some(
                    Message::Info(Info::StartCreatingDir { source, destination: d }),
                ) && source@ == source_directory@ && d@ == destination@)
            },
    {
        if destination_exists {
            if destination_is_dir {
                (
                    DirResolution::AlreadyExists,
                    Some(
                        Message::Progress(
                            Progress::Increment(
                                Increment::DestinationDirAlreadyExists {
                                    source: source_directory.to_owned(),
                                    destination: destination.to_owned(),
                                },
                            ),
                        ),
                    ),
                )
            } else {
                self.errors.push(
                    ProcessPathError {
                        not_processed: Some(source_directory.to_owned()),
                        kind: FileBackupErrorKind::DestinationForSourceDirExistsAsFile {
                            destination: destination.to_owned(),
                        },
                    },
                );
                proof {
                    assert(self.errors@.drop_last() =~= old(self).errors@);
                }
                (DirResolution::Failed, None)
            }
        } else {
            (
                DirResolution::Create,
                Some(
                    Message::Info(
                        Info::StartCreatingDir {
                            source: source_directory.to_owned(),
                            destination: destination.to_owned(),
                        },
                    ),
                ),
            )
        }
    }

    /// Records how creating one destination directory went: success is
    /// counted, failure fences off the subtree.
    pub fn record_create_outcome(
        &mut self,
        source_directory: &str,
        destination: &str,
        created: bool,
        io_error: &str,
    ) -> (m: Option<Message>)
        ensures
            final(self).source_root == old(self).source_root,
            final(self).destination_root == old(self).destination_root,
            created ==> {
                &&& final(self).errors@ == old(self).errors@
                &&& (m matches Some(
                    Message::Progress(
                        Progress::Increment(Increment::DirCreated { source, destination: d }),
                    ),
                ) && source@ == source_directory@ && d@ == destination@)
            },
            !created ==> {
                &&& final(self).errors@.len() == old(self).errors@.len() + 1
                &&& final(self).errors@.drop_last() == old(self).errors@
                &&& is_create_dir_error(
                    final(self).errors@.last(),
                    source_directory@,
                    destination@,
                    io_error@,
                )
                &&& m is None
            },
    {
        if created {
            Some(
                Message::Progress(
                    Progress::Increment(
                        Increment::DirCreated {
                            source: source_directory.to_owned(),
                            destination: destination.to_owned(),
                        },
                    ),
                ),
            )
        } else {
            self.errors.push(
                ProcessPathError {
                    not_processed: Some(source_directory.to_owned()),
                    kind: FileBackupErrorKind::CannotCreateDestinationDir {
                        destination: destination.to_owned(),
                        io_error: io_error.to_owned(),
                    },
                },
            );
            proof {
                assert(self.errors@.drop_last() =~= old(self).errors@);
            }
            None
        }
    }
}

} // verus!
