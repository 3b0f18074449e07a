//! Diff-based purge: deleting destination entries absent from the source.
//!
//! Purge strips both trees to relative paths, computes the set difference,
//! maps it back to absolute destination paths sorted lexicographically
//! (ancestors first), and then deletes in that order, skipping anything a
//! recursive delete has already taken away. Sync purges the destination
//! against the source; restore-with-delete swaps the roots.

use vstd::prelude::*;

use crate::errors::{
    is_strip_error, strip_prefix_error, FileBackupErrorKind, ProcessPathError,
};
use crate::messages::{Increment, Info, Message, Progress};
use crate::order::{contains_path, contains_view, insert_sorted, strictly_sorted};
use crate::paths::{
    join_path, spec_joined, spec_path_starts_with, spec_rel_of, spec_under_any, path_under_any,
    strip_path_prefix, views_of,
};

verus! {

/// The relative paths of a list of walked paths.
pub open spec fn rel_seq(root: Seq<char>, paths: Seq<String>) -> Seq<Seq<char>> {
    paths.map_values(|p: String| spec_rel_of(root, p@))
}

/// The relative-path set of a tree, as walked into `paths`.
pub open spec fn rel_set(root: Seq<char>, paths: Seq<String>) -> Set<Seq<char>> {
    rel_seq(root, paths).to_set()
}

/// Every path of `paths` lies at or below `root`.
pub open spec fn all_under_root(root: Seq<char>, paths: Seq<String>) -> bool {
    forall|i: int| 0 <= i < paths.len() ==> spec_path_starts_with(paths[i]@, root)
}

/// Index `i` holds the first path of `paths` that does not lie under `root`.
pub open spec fn first_strip_failure(root: Seq<char>, paths: Seq<String>, i: int) -> bool {
    &&& 0 <= i < paths.len()
    &&& !spec_path_starts_with(paths[i]@, root)
    &&& forall|j: int| 0 <= j < i ==> spec_path_starts_with(paths[j]@, root)
}

/// The purge plan: the relative paths present under the destination but
/// not under the source, rejoined with the destination root.
pub open spec fn purge_plan_set(
    source_root: Seq<char>,
    source_paths: Seq<String>,
    destination_root: Seq<char>,
    destination_paths: Seq<String>,
) -> Set<Seq<char>> {
    (rel_set(destination_root, destination_paths) - rel_set(source_root, source_paths)).map(
        |rel: Seq<char>| spec_joined(destination_root, rel),
    )
}

/// Strips `root` from every path. Fails with the invariant-broken error of
/// the first path that does not lie under `root`.
pub fn relative_paths(root: &str, paths: &Vec<String>) -> (r: Result<Vec<String>, ProcessPathError>)
    ensures
        r is Ok <==> all_under_root(root@, paths@),
        r matches Ok(rels) ==> {
            &&& rels@.len() == paths@.len()
            &&& forall|i: int| 0 <= i < paths@.len() ==> rels@[i]@ == spec_rel_of(
                root@,
                paths@[i]@,
            )
        },
        r matches Err(e) ==> exists|i: int|
            #[trigger] first_strip_failure(root@, paths@, i) && is_strip_error(
                e,
                root@,
                paths@[i]@,
            ),
{
    let mut rels: Vec<String> = Vec::new();
    let mut i: usize = 0;
    while i < paths.len()
        invariant
            0 <= i <= paths@.len(),
            rels@.len() == i,
            forall|j: int| 0 <= j < i ==> spec_path_starts_with(paths@[j]@, root@),
            forall|j: int| 0 <= j < i ==> rels@[j]@ == spec_rel_of(root@, paths@[j]@),
        decreases paths@.len() - i,
    {
        match strip_path_prefix(root, paths[i].as_str()) {
            Some(rel) => {
                rels.push(rel);
            },
            None => {
                proof {
                    assert(first_strip_failure(root@, paths@, i as int));
                }
                return Err(strip_prefix_error(root, paths[i].as_str()));
            },
        }
        i += 1;
    }
    Ok(rels)
}

/// Computes the purge plan: which absolute destination paths are stale.
/// The result is strictly sorted, so every stale ancestor directory stands
/// before its stale descendants. Fails exactly when some walked path does
/// not lie under its root, with the error of the first such path (the
/// source list is examined first).
pub fn get_paths_in_destinatination_but_not_in_source(
    source_root: &str,
    source_paths: &Vec<String>,
    destination_root: &str,
    destination_paths: &Vec<String>,
) -> (r: Result<Vec<String>, ProcessPathError>)
    ensures
        r is Ok <==> (all_under_root(source_root@, source_paths@) && all_under_root(
            destination_root@,
            destination_paths@,
        )),
        r matches Ok(v) ==> {
            &&& strictly_sorted(views_of(v@))
            &&& views_of(v@).to_set() == purge_plan_set(
                source_root@,
                source_paths@,
                destination_root@,
                destination_paths@,
            )
        },
        r matches Err(e) ==> (exists|i: int|
            #[trigger] first_strip_failure(source_root@, source_paths@, i) && is_strip_error(
                e,
                source_root@,
                source_paths@[i]@,
            )) || (all_under_root(source_root@, source_paths@) && exists|i: int|
            #[trigger] first_strip_failure(destination_root@, destination_paths@, i)
                && is_strip_error(e, destination_root@, destination_paths@[i]@)),
{
    let source_rels = match relative_paths(source_root, source_paths) {
        Ok(v) => v,
        Err(e) => {
            return Err(e);
        },
    };
    let destination_rels = match relative_paths(destination_root, destination_paths) {
        Ok(v) => v,
        Err(e) => {
            return Err(e);
        },
    };
    let mut result: Vec<String> = Vec::new();
    let mut i: usize = 0;
    while i < destination_rels.len()
        invariant
            0 <= i <= destination_rels@.len(),
            destination_rels@.len() == destination_paths@.len(),
            source_rels@.len() == source_paths@.len(),
            forall|j: int| 0 <= j < destination_rels@.len() ==> destination_rels@[j]@
                == spec_rel_of(destination_root@, destination_paths@[j]@),
            forall|j: int| 0 <= j < source_rels@.len() ==> source_rels@[j]@ == spec_rel_of(
                source_root@,
                source_paths@[j]@,
            ),
            strictly_sorted(views_of(result@)),
            forall|q: Seq<char>| contains_view(result@, q) <==> exists|k: int|
                0 <= k < i && !contains_view(source_rels@, #[trigger] destination_rels@[k]@) && q
                    == spec_joined(destination_root@, destination_rels@[k]@),
        decreases destination_rels@.len() - i,
    {
        let rel = &destination_rels[i];
        if !contains_path(&source_rels, rel.as_str()) {
            let joined = join_path(destination_root, rel.as_str());
            if !contains_path(&result, joined.as_str()) {
                let ghost jv = joined@;
                insert_sorted(&mut result, joined);
                proof {
                    assert forall|q: Seq<char>| contains_view(result@, q) implies exists|k: int|
                        0 <= k < i + 1 && !contains_view(
                            source_rels@,
                            #[trigger] destination_rels@[k]@,
                        ) && q == spec_joined(destination_root@, destination_rels@[k]@) by {
                        if q == jv {
                            assert(!contains_view(source_rels@, destination_rels@[i as int]@));
                        }
                    }
                }
            }
        }
        i += 1;
    }
    proof {
        let plan = purge_plan_set(
            source_root@,
            source_paths@,
            destination_root@,
            destination_paths@,
        );
        let dset = rel_set(destination_root@, destination_paths@);
        let sset = rel_set(source_root@, source_paths@);
        assert forall|q: Seq<char>| views_of(result@).to_set().contains(q) implies plan.contains(
            q,
        ) by {
            assert(contains_view(result@, q));
            let k = choose|k: int|
                0 <= k < destination_rels@.len() && !contains_view(
                    source_rels@,
                    #[trigger] destination_rels@[k]@,
                ) && q == spec_joined(destination_root@, destination_rels@[k]@);
            let rel = destination_rels@[k]@;
            assert(rel_seq(destination_root@, destination_paths@)[k] == rel);
            assert(dset.contains(rel));
            assert forall|m: int| 0 <= m < source_paths@.len() implies rel_seq(
                source_root@,
                source_paths@,
            )[m] != rel by {
                assert(source_rels@[m]@ == spec_rel_of(source_root@, source_paths@[m]@));
            }
            assert(!sset.contains(rel));
            assert((dset - sset).contains(rel));
        }
        assert forall|q: Seq<char>| plan.contains(q) implies views_of(result@).to_set().contains(
            q,
        ) by {
            let rel = choose|rel: Seq<char>| (dset - sset).contains(rel) && q == spec_joined(
                destination_root@,
                rel,
            );
            let k = choose|k: int|
                0 <= k < destination_paths@.len() && rel_seq(
                    destination_root@,
                    destination_paths@,
                )[k] == rel;
            assert(destination_rels@[k]@ == rel);
            assert forall|m: int| 0 <= m < source_rels@.len() implies source_rels@[m]@ != rel by {
                if source_rels@[m]@ == rel {
                    assert(rel_seq(source_root@, source_paths@)[m] == rel);
                    assert(sset.contains(rel));
                }
            }
            assert(!contains_view(source_rels@, destination_rels@[k]@));
            assert(contains_view(result@, q));
            let n = choose|n: int| 0 <= n < result@.len() && result@[n]@ == q;
            assert(views_of(result@)[n] == q);
        }
        assert(views_of(result@).to_set() =~= plan);
    }
    Ok(result)
}

/// The error recorded when a stale directory cannot be deleted.
pub open spec fn is_delete_dir_error(
    e: ProcessPathError,
    directory: Seq<char>,
    io_error: Seq<char>,
) -> bool {
    &&& e.not_processed matches Some(p) && p@ == directory
    &&& e.kind matches FileBackupErrorKind::CannotDeleteDirectory { io_error: io } && io@
        == io_error
}

/// The error recorded when a stale file cannot be deleted.
pub open spec fn is_delete_file_error(
    e: ProcessPathError,
    file: Seq<char>,
    io_error: Seq<char>,
) -> bool {
    &&& e.not_processed matches Some(p) && p@ == file
    &&& e.kind matches FileBackupErrorKind::CannotDeleteFile { io_error: io } && io@ == io_error
}

/// How the driver's attempt to delete one file ended. A file already gone
/// (removed along with a stale ancestor directory) counts as success.
#[derive(Debug, Clone, PartialEq, Eq)]
pub enum DeleteOutcome {
    Deleted,
    AlreadyAbsent,
    Failed(String),
}

/// The deletion half of purge: decides, entry by sorted entry, whether a
/// stale path still needs deleting, and accumulates what could not be
/// deleted. The driver performs each delete and reports back.
pub struct PurgeEngine {
    /// Directories deleted so far; everything below them is already gone.
    pub deleted_dirs: Vec<String>,
    /// What could not be deleted.
    pub errors: Vec<ProcessPathError>,
}

impl PurgeEngine {
    /// A fresh engine: nothing deleted, nothing failed.
    pub fn new() -> (r: Self)
        ensures
            r.deleted_dirs@.len() == 0,
            r.errors@.len() == 0,
    {
        PurgeEngine { deleted_dirs: Vec::new(), errors: Vec::new() }
    }

    /// Must `directory` still be deleted? `false` means an ancestor (or the
    /// directory itself) was already deleted, and only the already-deleted
    /// increment is owed; `true` obliges the driver to delete it and report
    /// back.
    pub fn start_delete_dir(&self, directory: &str) -> (r: (bool, Message))
        ensures
            r.0 == !spec_under_any(views_of(self.deleted_dirs@), directory@),
            r.0 ==> (r.1 matches Message::Info(Info::StartDeletingDir(p)) && p@ == directory@),
            !r.0 ==> (r.1 matches Message::Progress(
                Progress::Increment(Increment::DirectoryAlreadyDeleted(p)),
            ) && p@ == directory@),
    {
        if path_under_any(&self.deleted_dirs, directory) {
            (
                false,
                Message::Progress(
                    Progress::Increment(Increment::DirectoryAlreadyDeleted(directory.to_owned())),
                ),
            )
        } else {
            (true, Message::Info(Info::StartDeletingDir(directory.to_owned())))
        }
    }

    /// Records how deleting `directory` went: success remembers it (its
    /// descendants are now gone) and owes the deleted-directory increment;
    /// failure records the error and owes nothing.
    pub fn record_dir_outcome(&mut self, directory: &str, deleted: bool, io_error: &str) -> (m:
        Option<Message>)
        ensures
            deleted ==> {
                &&& views_of(final(self).deleted_dirs@) == views_of(
                    old(self).deleted_dirs@,
                ).push(directory@)
                &&& final(self).errors@ == old(self).errors@
                &&& m matches Some(
                    Message::Progress(Progress::Increment(Increment::DeletedDir(p))),
                ) && p@ == directory@
            },
            !deleted ==> {
                &&& final(self).deleted_dirs@ == old(self).deleted_dirs@
                &&& final(self).errors@.len() == old(self).errors@.len() + 1
                &&& final(self).errors@.drop_last() == old(self).errors@
                &&& is_delete_dir_error(final(self).errors@.last(), directory@, io_error@)
                &&& m is None
            },
    {
        if deleted {
            self.deleted_dirs.push(directory.to_owned());
            proof {
                assert(views_of(self.deleted_dirs@) =~= views_of(
                    old(self).deleted_dirs@,
                ).push(directory@));
            }
            Some(Message::Progress(Progress::Increment(Increment::DeletedDir(directory.to_owned()))))
        } else {
            self.errors.push(
                ProcessPathError {
                    not_processed: Some(directory.to_owned()),
                    kind: FileBackupErrorKind::CannotDeleteDirectory {
                        io_error: io_error.to_owned(),
                    },
                },
            );
            proof {
                assert(self.errors@.drop_last() =~= old(self).errors@);
            }
            None
        }
    }

    /// Must `file` still be deleted? `false` means a deleted directory
    /// already took it away, and nothing is owed.
    pub fn start_delete_file(&self, file: &str) -> (r: (bool, Option<Message>))
        ensures
            r.0 == !spec_under_any(views_of(self.deleted_dirs@), file@),
            r.0 ==> (r.1 matches Some(Message::Info(Info::StartDeletingFile(p))) && p@ == file@),
            !r.0 ==> r.1 is None,
    {
        if path_under_any(&self.deleted_dirs, file) {
            (false, None)
        } else {
            (true, Some(Message::Info(Info::StartDeletingFile(file.to_owned()))))
        }
    }

    /// Records how deleting `file` went. Deleted and already-absent files
    /// both owe the deleted-file increment; a failure records the error.
    pub fn record_file_outcome(&mut self, file: &str, outcome: DeleteOutcome) -> (m: Option<
        Message,
    >)
        ensures
            final(self).deleted_dirs@ == old(self).deleted_dirs@,
            !(outcome matches DeleteOutcome::Failed(_)) ==> {
                &&& final(self).errors@ == old(self).errors@
                &&& m matches Some(
                    Message::Progress(Progress::Increment(Increment::DeletedFile(p))),
                ) && p@ == file@
            },
            outcome matches DeleteOutcome::Failed(io) ==> {
                &&& final(self).errors@.len() == old(self).errors@.len() + 1
                &&& final(self).errors@.drop_last() == old(self).errors@
                &&& is_delete_file_error(final(self).errors@.last(), file@, io@)
                &&& m is None
            },
    {
        match outcome {
            DeleteOutcome::Deleted | DeleteOutcome::AlreadyAbsent => Some(
                Message::Progress(Progress::Increment(Increment::DeletedFile(file.to_owned()))),
            ),
            DeleteOutcome::Failed(io_error) => {
                self.errors.push(
                    ProcessPathError {
                        not_processed: Some(file.to_owned()),
                        kind: FileBackupErrorKind::CannotDeleteFile { io_error },
                    },
                );
                proof {
                    assert(self.errors@.drop_last() =~= old(self).errors@);
                }
                None
            },
        }
    }
}

} // verus!
