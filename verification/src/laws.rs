//! What the engine guarantees, stated once and proved.
//!
//! These laws tie the per-step contracts together: when a file may be
//! skipped, when it must be copied, and what a purge leaves behind.

use vstd::prelude::*;

use crate::detect::{
    spec_hash_verdict, spec_metadata_verdict, spec_skip_copy, FileMetaData, HashVerdict,
    MetaVerdict,
};
use crate::order::{lemma_ancestor_sorts_first, lemma_lex_le_antisymmetric, strictly_sorted};
use crate::paths::{is_dir_prefix, views_of};
use crate::purge::{purge_plan_set, rel_set};

verus! {

/// A file is skipped exactly when its destination exists and agrees with
/// the source in metadata and in content hash. So after a successful
/// backup, every source file's destination carries the source's content:
/// either it was copied, or it already agreed hash for hash.
pub proof fn lemma_skip_means_identical(
    destination_exists: bool,
    source_metadata: Option<FileMetaData>,
    destination_metadata: Option<FileMetaData>,
    source_hash: Option<Seq<u8>>,
    destination_hash: Option<Seq<u8>>,
)
    ensures
        spec_skip_copy(
            destination_exists,
            source_metadata,
            destination_metadata,
            source_hash,
            destination_hash,
        ) <==> {
            &&& destination_exists
            &&& source_metadata == destination_metadata
            &&& source_hash is Some
            &&& destination_hash is Some
            &&& source_hash == destination_hash
        },
{
}

/// A second backup of an unchanged tree copies nothing: a destination that
/// exists and agrees with the source in metadata and hash is skipped,
/// whatever those values are.
pub proof fn lemma_unchanged_file_is_skipped(
    source_metadata: Option<FileMetaData>,
    source_hash: Option<Seq<u8>>,
)
    requires
        source_hash is Some,
    ensures
        spec_skip_copy(true, source_metadata, source_metadata, source_hash, source_hash),
{
}

/// Altering a destination's content while leaving its metadata unchanged
/// forces the next backup to re-copy it: equal metadata defers to the
/// hashes, and differing hashes force the copy.
pub proof fn lemma_content_change_forces_copy(
    source_metadata: Option<FileMetaData>,
    destination_metadata: Option<FileMetaData>,
    source_hash: Seq<u8>,
    destination_hash: Seq<u8>,
)
    requires
        source_metadata == destination_metadata,
        source_hash != destination_hash,
    ensures
        spec_metadata_verdict(true, source_metadata, destination_metadata)
            == MetaVerdict::CheckHashes,
        spec_hash_verdict(Some(source_hash), Some(destination_hash)) == HashVerdict::MustCopy,
        !spec_skip_copy(
            true,
            source_metadata,
            destination_metadata,
            Some(source_hash),
            Some(destination_hash),
        ),
{
}

/// After a sync, the destination's relative-path set equals the source's:
/// the backup half makes the destination cover the source, and the purge
/// half removes exactly the difference.
pub proof fn lemma_sync_purges_to_source(source: Set<Seq<char>>, destination: Set<Seq<char>>)
    requires
        source.subset_of(destination),
    ensures
        destination.difference(destination.difference(source)) == source,
{
    assert(destination.difference(destination.difference(source)) =~= source);
}

/// Two trees that already carry the same relative paths have an empty
/// purge plan: a restore-with-delete followed by a sync deletes nothing in
/// the sync, because the restore made the trees agree.
pub proof fn lemma_mirrored_trees_purge_nothing(
    source_root: Seq<char>,
    source_paths: Seq<String>,
    destination_root: Seq<char>,
    destination_paths: Seq<String>,
)
    requires
        rel_set(source_root, source_paths) == rel_set(destination_root, destination_paths),
    ensures
        purge_plan_set(source_root, source_paths, destination_root, destination_paths)
            == Set::<Seq<char>>::empty(),
{
    assert(purge_plan_set(source_root, source_paths, destination_root, destination_paths)
        =~= Set::<Seq<char>>::empty());
}

/// In a sorted purge plan, a stale ancestor directory stands strictly
/// before everything below it: deleting in plan order takes whole subtrees
/// top-down, and what follows is already gone.
pub proof fn lemma_plan_deletes_ancestors_first(plan: Seq<String>, i: int, j: int)
    requires
        strictly_sorted(views_of(plan)),
        0 <= i < plan.len(),
        0 <= j < plan.len(),
        is_dir_prefix(plan[i]@, plan[j]@),
    ensures
        i < j,
{
    lemma_ancestor_sorts_first(plan[i]@, plan[j]@);
    assert(views_of(plan)[i] == plan[i]@);
    assert(views_of(plan)[j] == plan[j]@);
    if i > j {
        assert(crate::order::lex_lt(views_of(plan)[j], views_of(plan)[i]));
        lemma_lex_le_antisymmetric(plan[i]@, plan[j]@);
    }
}

/// A purge whose plan set is empty lists no path at all: nothing is even
/// attempted.
pub proof fn lemma_empty_plan_lists_nothing(v: Seq<String>)
    requires
        views_of(v).to_set() == Set::<Seq<char>>::empty(),
    ensures
        v.len() == 0,
{
    if v.len() > 0 {
        assert(views_of(v)[0] == v[0]@);
        assert(views_of(v).to_set().contains(v[0]@));
    }
}

} // verus!
