//! Copying the files that need an update.
//!
//! Files arrive from a files-only walk of the source. A file below a
//! directory that could not be mirrored is skipped without an error of its
//! own — its ancestor's error already accounts for it. Every other file
//! goes through change detection; only files that need it are copied, and
//! the source's modification time is carried over best-effort afterwards.

use vstd::prelude::*;

use crate::detect::{
    metadata_verdict, hash_verdict, opt_bytes, spec_hash_verdict, spec_metadata_verdict,
    FileMetaData, HashVerdict, MetaVerdict,
};
use crate::errors::{is_strip_error, FileBackupErrorKind, ProcessPathError};
use crate::messages::{Increment, Info, Message, Progress, Warning};
use crate::paths::{
    get_destination_file_path, path_under_any, spec_joined, spec_path_starts_with, spec_rel_of,
    spec_under_any, views_of,
};

verus! {

/// The error recorded when a file cannot be copied to its destination.
pub open spec fn is_copy_error(
    e: ProcessPathError,
    source_file: Seq<char>,
    destination_file: Seq<char>,
    io_error: Seq<char>,
) -> bool {
    &&& e.not_processed matches Some(p) && p@ == source_file
    &&& e.kind matches FileBackupErrorKind::CannotCopyFile { to, io_error: io } && to@
        == destination_file && io@ == io_error
}

/// What to do with one source file.
#[derive(Debug, PartialEq, Eq)]
pub enum FileStart {
    /// The file lies under a directory that could not be mirrored: nothing
    /// to do, its ancestor's error already covers it.
    SkipUnreachable,
    /// Gather the facts about this destination and run change detection.
    Process { destination: String },
    /// The file does not lie under the source root; the invariant-broken
    /// error was recorded.
    Failed,
}

/// The copy phase of one run: which files still get work, what the change
/// detector said about each, and every copy failure so far.
pub struct FileCopier {
    pub source_root: String,
    pub destination_root: String,
    /// Source directories whose mirroring failed; files below them are
    /// skipped without further errors.
    pub unreachable_directories: Vec<String>,
    /// Every failure of this phase so far.
    pub errors: Vec<ProcessPathError>,
}

impl FileCopier {
    /// A fresh copy phase. `unreachable_directories` are the not-processed
    /// paths the mirroring phase recorded.
    pub fn new(
        source_root: String,
        destination_root: String,
        unreachable_directories: Vec<String>,
    ) -> (r: Self)
        ensures
            r.source_root@ == source_root@,
            r.destination_root@ == destination_root@,
            r.unreachable_directories == unreachable_directories,
            r.errors@.len() == 0,
    {
        FileCopier { source_root, destination_root, unreachable_directories, errors: Vec::new() }
    }

    /// Records an error the file walker yielded.
    pub fn record_walk_error(&mut self, error: ProcessPathError)
        ensures
            final(self).source_root == old(self).source_root,
            final(self).destination_root == old(self).destination_root,
            final(self).unreachable_directories == old(self).unreachable_directories,
            final(self).errors@ == old(self).errors@.push(error),
    {
        self.errors.push(error);
    }

    /// Begins one source file: skips it when it lies below an unreachable
    /// directory, otherwise computes the destination to compare against.
    pub fn start_file(&mut self, source_file: &str) -> (r: FileStart)
        ensures
            final(self).source_root == old(self).source_root,
            final(self).destination_root == old(self).destination_root,
            final(self).unreachable_directories == old(self).unreachable_directories,
            spec_under_any(views_of(old(self).unreachable_directories@), source_file@) ==> {
                &&& r is SkipUnreachable
                &&& final(self).errors@ == old(self).errors@
            },
            !spec_under_any(views_of(old(self).unreachable_directories@), source_file@)
                && spec_path_starts_with(source_file@, old(self).source_root@) ==> {
                &&& (r matches FileStart::Process { destination } && destination@ == spec_joined(
                    old(self).destination_root@,
                    spec_rel_of(old(self).source_root@, source_file@),
                ))
                &&& final(self).errors@ == old(self).errors@
            },
            !spec_under_any(views_of(old(self).unreachable_directories@), source_file@)
                && !spec_path_starts_with(source_file@, old(self).source_root@) ==> {
                &&& r is Failed
                &&& final(self).errors@.len() == old(self).errors@.len() + 1
                &&& final(self).errors@.drop_last() == old(self).errors@
                &&& is_strip_error(
                    final(self).errors@.last(),
                    old(self).source_root@,
                    source_file@,
                )
            },
    {
        if path_under_any(&self.unreachable_directories, source_file) {
            return FileStart::SkipUnreachable;
        }
        match get_destination_file_path(
            self.destination_root.as_str(),
            self.source_root.as_str(),
            source_file,
        ) {
            Ok(destination) => FileStart::Process { destination },
            Err(e) => {
                self.errors.push(e);
                proof {
                    assert(self.errors@.drop_last() =~= old(self).errors@);
                }
                FileStart::Failed
            },
        }
    }

    /// Records how copying one file went.
    pub fn record_copy_outcome(
        &mut self,
        source_file: &str,
        destination_file: &str,
        copied: bool,
        io_error: &str,
    ) -> (m: Option<Message>)
        ensures
            final(self).source_root == old(self).source_root,
            final(self).destination_root == old(self).destination_root,
            final(self).unreachable_directories == old(self).unreachable_directories,
            copied ==> {
                &&& final(self).errors@ == old(self).errors@
                &&& (m matches Some(
                    Message::Progress(
                        Progress::Increment(Increment::FileCopied { source, destination }),
                    ),
                ) && source@ == source_file@ && destination@ == destination_file@)
            },
            !copied ==> {
                &&& final(self).errors@.len() == old(self).errors@.len() + 1
                &&& final(self).errors@.drop_last() == old(self).errors@
                &&& is_copy_error(
                    final(self).errors@.last(),
                    source_file@,
                    destination_file@,
                    io_error@,
                )
                &&& m is None
            },
    {
        if copied {
            Some(
                Message::Progress(
                    Progress::Increment(
                        Increment::FileCopied {
                            source: source_file.to_owned(),
                            destination: destination_file.to_owned(),
                        },
                    ),
                ),
            )
        } else {
            self.errors.push(
                ProcessPathError {
                    not_processed: Some(source_file.to_owned()),
                    kind: FileBackupErrorKind::CannotCopyFile {
                        to: destination_file.to_owned(),
                        io_error: io_error.to_owned(),
                    },
                },
            );
            proof {
                assert(self.errors@.drop_last() =~= old(self).errors@);
            }
            None
        }
    }
}

/// The metadata stage of change detection, together with the warning it
/// owes when exactly one side's metadata was unreadable.
pub fn assess_metadata(
    source_file: &str,
    destination_file: &str,
    destination_exists: bool,
    source_metadata: &Option<FileMetaData>,
    destination_metadata: &Option<FileMetaData>,
) -> (r: (MetaVerdict, Option<Message>))
    ensures
        r.0 == spec_metadata_verdict(destination_exists, *source_metadata, *destination_metadata),
        r.0 is MustCopyMetadataWarning ==> (r.1 matches Some(
            Message::Warning(Warning::CannotGetMetadata { source, destination, copy_anyway }),
        ) && source@ == source_file@ && destination@ == destination_file@ && copy_anyway),
        !(r.0 is MustCopyMetadataWarning) ==> r.1 is None,
{
    let verdict = metadata_verdict(destination_exists, source_metadata, destination_metadata);
    match verdict {
        MetaVerdict::MustCopyMetadataWarning => (
            verdict,
            Some(
                Message::Warning(
                    Warning::CannotGetMetadata {
                        source: source_file.to_owned(),
                        destination: destination_file.to_owned(),
                        copy_anyway: true,
                    },
                ),
            ),
        ),
        _ => (verdict, None),
    }
}

/// The hash stage of change detection, together with the message it owes:
/// the skip increment when contents agree, or the hash warning when a hash
/// was unavailable.
pub fn assess_hashes(
    source_file: &str,
    destination_file: &str,
    source_hash: &Option<Vec<u8>>,
    destination_hash: &Option<Vec<u8>>,
) -> (r: (HashVerdict, Option<Message>))
    ensures
        r.0 == spec_hash_verdict(opt_bytes(*source_hash), opt_bytes(*destination_hash)),
        r.0 is Skip ==> (r.1 matches Some(
            Message::Progress(
                Progress::Increment(Increment::SkippingFileNoModification { source, destination }),
            ),
        ) && source@ == source_file@ && destination@ == destination_file@),
        r.0 is MustCopyHashWarning ==> (r.1 matches Some(
            Message::Warning(Warning::CannotGetHash { source, destination, copy_anyway }),
        ) && source@ == source_file@ && destination@ == destination_file@ && copy_anyway),
        r.0 is MustCopy ==> r.1 is None,
{
    let verdict = hash_verdict(source_hash, destination_hash);
    match verdict {
        HashVerdict::Skip => (
            verdict,
            Some(
                Message::Progress(
                    Progress::Increment(
                        Increment::SkippingFileNoModification {
                            source: source_file.to_owned(),
                            destination: destination_file.to_owned(),
                        },
                    ),
                ),
            ),
        ),
        HashVerdict::MustCopyHashWarning => (
            verdict,
            Some(
                Message::Warning(
                    Warning::CannotGetHash {
                        source: source_file.to_owned(),
                        destination: destination_file.to_owned(),
                        copy_anyway: true,
                    },
                ),
            ),
        ),
        HashVerdict::MustCopy => (verdict, None),
    }
}

/// The message announcing a copy that is about to happen.
pub fn begin_copy_message(source_file: &str, destination_file: &str) -> (m: Message)
    ensures
        m matches Message::Info(Info::StartCopingFile { source, destination }) && source@
            == source_file@ && destination@ == destination_file@,
{
    Message::Info(
        Info::StartCopingFile {
            source: source_file.to_owned(),
            destination: destination_file.to_owned(),
        },
    )
}

/// The modification time to carry over to a fresh copy, when the source
/// metadata reports one; `None` means there is nothing to set and the step
/// counts as succeeded.
pub fn modified_time_to_set(source_metadata: &Option<FileMetaData>) -> (r: Option<u64>)
    ensures
        r == (match *source_metadata {
            Some(m) => m.modified,
            None => None::<u64>,
        }),
{
    match source_metadata {
        Some(m) => m.modified,
        None => None,
    }
}

/// The warning owed when the modification time could not be carried over;
/// the failure is advisory and never fails the file.
pub fn record_modified_time_outcome(
    source_file: &str,
    destination_file: &str,
    time_set: bool,
) -> (m: Option<Message>)
    ensures
        time_set ==> m is None,
        !time_set ==> (m matches Some(
            Message::Warning(Warning::CannotCopyModifiedTime { source, destination }),
        ) && source@ == source_file@ && destination@ == destination_file@),
{
    if time_set {
        None
    } else {
        Some(
            Message::Warning(
                Warning::CannotCopyModifiedTime {
                    source: source_file.to_owned(),
                    destination: destination_file.to_owned(),
                },
            ),
        )
    }
}

} // verus!
