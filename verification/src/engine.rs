//! Composing the phases into the three commands.
//!
//! Every command validates the roots first, then mirrors directories and
//! copies files, and finally — for sync, and for restore when asked — purges
//! what the authoritative tree no longer has. Backup and sync copy from the
//! source into the destination; restore swaps the roles and copies the
//! backup back into the source. Root-validation failures are fatal and
//! short-circuit; everything later is collected, never fatal.

use vstd::prelude::*;

use crate::errors::{Error, ProcessPathError};
use crate::messages::{Info, Message};
use crate::paths::views_of;

verus! {

/// A command as the caller states it.
#[derive(Debug, Clone, PartialEq, Eq)]
pub enum Command {
    /// Mirror `source_root` into `destination_root`; never deletes.
    Backup { source_root: String, destination_root: String },
    /// Backup, then delete whatever the destination has that the source
    /// does not.
    Sync { source_root: String, destination_root: String },
    /// Mirror the backup at `destination_root` back into `source_root`;
    /// `delete_files` also purges what the backup does not have.
    Restore { source_root: String, destination_root: String, delete_files: bool },
}

/// The phases a command runs. `backup_from` is the authoritative tree that
/// is walked; `backup_to` is the tree written into; the purge, when `purge`
/// holds, deletes from `backup_to` what `backup_from` lacks. Validation
/// always checks the caller's `source_root` for existence and creates
/// `destination_root` when missing, whichever way the copy then flows.
#[derive(Debug, Clone, PartialEq, Eq)]
pub struct RunPlan {
    pub source_root: String,
    pub destination_root: String,
    pub backup_from: String,
    pub backup_to: String,
    pub purge: bool,
}

/// The phases of each command: backup and sync copy source to destination,
/// sync alone purges; restore copies destination to source and purges only
/// on request.
pub fn plan_of_command(command: Command) -> (r: RunPlan)
    ensures
        command matches Command::Backup { source_root, destination_root } ==> {
            &&& r.source_root@ == source_root@
            &&& r.destination_root@ == destination_root@
            &&& r.backup_from@ == source_root@
            &&& r.backup_to@ == destination_root@
            &&& !r.purge
        },
        command matches Command::Sync { source_root, destination_root } ==> {
            &&& r.source_root@ == source_root@
            &&& r.destination_root@ == destination_root@
            &&& r.backup_from@ == source_root@
            &&& r.backup_to@ == destination_root@
            &&& r.purge
        },
        command matches Command::Restore { source_root, destination_root, delete_files } ==> {
            &&& r.source_root@ == source_root@
            &&& r.destination_root@ == destination_root@
            &&& r.backup_from@ == destination_root@
            &&& r.backup_to@ == source_root@
            &&& r.purge == delete_files
        },
{
    match command {
        Command::Backup { source_root, destination_root } => RunPlan {
            backup_from: source_root.clone(),
            backup_to: destination_root.clone(),
            source_root,
            destination_root,
            purge: false,
        },
        Command::Sync { source_root, destination_root } => RunPlan {
            backup_from: source_root.clone(),
            backup_to: destination_root.clone(),
            source_root,
            destination_root,
            purge: true,
        },
        Command::Restore { source_root, destination_root, delete_files } => RunPlan {
            backup_from: destination_root.clone(),
            backup_to: source_root.clone(),
            source_root,
            destination_root,
            purge: delete_files,
        },
    }
}

/// A missing source root is fatal before any work begins.
pub fn check_source_root(source_root: &str, source_exists: bool) -> (r: Result<(), Error>)
    ensures
        source_exists ==> r is Ok,
        !source_exists ==> (r matches Err(Error::SourceRootPathDoesNotExist(p)) && p@
            == source_root@),
{
    if source_exists {
        Ok(())
    } else {
        Err(Error::SourceRootPathDoesNotExist(source_root.to_owned()))
    }
}

/// Whether the destination root must first be created (with the message
/// announcing it).
pub fn begin_destination_root(destination_root: &str, destination_exists: bool) -> (r: (
    bool,
    Option<Message>,
))
    ensures
        r.0 == !destination_exists,
        destination_exists ==> r.1 is None,
        !destination_exists ==> (r.1 matches Some(
            Message::Info(Info::CreatingDestinationDir(p)),
        ) && p@ == destination_root@),
{
    if destination_exists {
        (false, None)
    } else {
        (
            true,
            Some(Message::Info(Info::CreatingDestinationDir(destination_root.to_owned()))),
        )
    }
}

/// Settles the destination root: a failed creation is fatal, and whatever
/// now stands there must be a directory.
pub fn finish_destination_root(
    destination_root: &str,
    create_attempted: bool,
    created: bool,
    io_error: &str,
    destination_is_dir: bool,
) -> (r: (Result<(), Error>, Option<Message>))
    ensures
        create_attempted && !created ==> {
            &&& (r.0 matches Err(Error::CannotCreateRootDestinationDir(p, io)) && p@
                == destination_root@ && io@ == io_error@)
            &&& r.1 is None
        },
        create_attempted && created ==> (r.1 matches Some(
            Message::Info(Info::DestinationDirCreated(p)),
        ) && p@ == destination_root@),
        !create_attempted ==> r.1 is None,
        (!create_attempted || created) && destination_is_dir ==> r.0 is Ok,
        (!create_attempted || created) && !destination_is_dir ==> (r.0 matches Err(
            Error::RootDestinatinIsNotADirectory(p),
        ) && p@ == destination_root@),
{
    if create_attempted && !created {
        return (
            (Err(
                Error::CannotCreateRootDestinationDir(
                    destination_root.to_owned(),
                    io_error.to_owned(),
                ),
            )),
            None,
        );
    }
    let message = if create_attempted {
        Some(Message::Info(Info::DestinationDirCreated(destination_root.to_owned())))
    } else {
        None
    };
    if destination_is_dir {
        (Ok(()), message)
    } else {
        (
            (Err(Error::RootDestinatinIsNotADirectory(destination_root.to_owned()))),
            message,
        )
    }
}

/// The fatal error raised when a root cannot be opened for walking.
pub fn walk_open_failure(directory: &str, io_error: &str) -> (e: Error)
    ensures
        e matches Error::CannotReadDirectoryContent(p, io) && p@ == directory@ && io@ == io_error@,
{
    Error::CannotReadDirectoryContent(directory.to_owned(), io_error.to_owned())
}

/// The fatal error raised when the purge diff itself could not be computed.
pub fn purge_diff_failure(error: ProcessPathError) -> (e: Error)
    ensures
        e matches Error::FileBackupErrors(v) && v@ =~= seq![error],
{
    let mut errors: Vec<ProcessPathError> = Vec::new();
    errors.push(error);
    Error::FileBackupErrors(errors)
}

/// The not-processed paths of a list of errors, newest last: the subtrees
/// that later phases must treat as unreachable.
pub open spec fn not_processed_paths(errors: Seq<ProcessPathError>) -> Seq<Seq<char>>
    decreases errors.len(),
{
    if errors.len() == 0 {
        Seq::<Seq<char>>::empty()
    } else {
        let rest = not_processed_paths(errors.drop_last());
        match errors.last().not_processed {
            Some(p) => rest.push(p@),
            None => rest,
        }
    }
}

/// Extracts from the mirroring phase's errors the directories whose
/// subtrees the copy phase must skip.
pub fn unreachable_directories(errors: &Vec<ProcessPathError>) -> (r: Vec<String>)
    ensures
        views_of(r@) == not_processed_paths(errors@),
{
    let mut r: Vec<String> = Vec::new();
    let mut i: usize = 0;
    while i < errors.len()
        invariant
            0 <= i <= errors@.len(),
            views_of(r@) == not_processed_paths(errors@.take(i as int)),
        decreases errors@.len() - i,
    {
        let ghost prev = r@;
        match &errors[i].not_processed {
            Some(p) => {
                r.push(p.clone());
                proof {
                    assert(views_of(r@) =~= views_of(prev).push(p@));
                }
            },
            None => {},
        }
        proof {
            assert(errors@.take(i + 1).drop_last() =~= errors@.take(i as int));
            assert(errors@.take(i + 1).last() == errors@[i as int]);
        }
        i += 1;
    }
    proof {
        assert(errors@.take(errors@.len() as int) =~= errors@);
    }
    r
}

/// The end of a run: success exactly when nothing failed, otherwise every
/// accumulated error together.
pub fn finish_run(errors: Vec<ProcessPathError>) -> (r: Result<(), Error>)
    ensures
        errors@.len() == 0 ==> r is Ok,
        errors@.len() > 0 ==> (r matches Err(Error::FileBackupErrors(v)) && v@ == errors@),
{
    if errors.len() == 0 {
        Ok(())
    } else {
        Err(Error::FileBackupErrors(errors))
    }
}

} // verus!
