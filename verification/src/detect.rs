//! Change detection: does a destination file already match its source?
//!
//! The check has two stages. First the metadata snapshots are compared;
//! only when they already agree are the content hashes computed and
//! compared. Metadata equality alone is not proof of content equality, and
//! always hashing would be wasteful for the common unchanged case. Every
//! unreadable input fails open: the file is copied rather than silently
//! left to diverge.

use vstd::prelude::*;

verus! {

/// The kind of filesystem entry a metadata snapshot describes.
#[derive(Debug, Clone, Copy, PartialEq, Eq)]
pub enum FileKind {
    File,
    Directory,
    Symlink,
    Other,
}

/// A value snapshot of a file's metadata, compared by equality and never
/// by identity. `modified` is the modification time in nanoseconds since a
/// fixed epoch, when the filesystem reports one; `permissions` holds the
/// platform's permission bits.
#[derive(Debug, Clone, PartialEq, Eq)]
pub struct FileMetaData {
    pub modified: Option<u64>,
    pub length: u64,
    pub file_type: FileKind,
    pub permissions: u32,
}

/// What the metadata stage decided.
#[derive(Debug, Clone, Copy, PartialEq, Eq)]
pub enum MetaVerdict {
    /// The destination must be (re)written.
    MustCopy,
    /// As `MustCopy`, and the caller owes a metadata warning: exactly one
    /// side's metadata was unreadable.
    MustCopyMetadataWarning,
    /// Metadata agrees; only the content hashes can settle the question.
    CheckHashes,
}

/// What the hash stage decided.
#[derive(Debug, Clone, Copy, PartialEq, Eq)]
pub enum HashVerdict {
    /// Contents agree: the copy is skipped.
    Skip,
    /// Hashes differ: the destination must be rewritten.
    MustCopy,
    /// A hash was unavailable: copy anyway, and the caller owes a hash
    /// warning.
    MustCopyHashWarning,
}

/// The metadata stage. The destination being absent, or differing in any
/// metadata field, forces a copy; one-sided unreadable metadata forces a
/// copy with a warning; agreement defers to the hash stage.
pub open spec fn spec_metadata_verdict(
    destination_exists: bool,
    source_metadata: Option<FileMetaData>,
    destination_metadata: Option<FileMetaData>,
) -> MetaVerdict {
    if !destination_exists {
        MetaVerdict::MustCopy
    } else if (source_metadata is Some) != (destination_metadata is Some) {
        MetaVerdict::MustCopyMetadataWarning
    } else if source_metadata != destination_metadata {
        MetaVerdict::MustCopy
    } else {
        MetaVerdict::CheckHashes
    }
}

/// The hash stage. Differing hashes force a copy; a missing hash forces a
/// copy with a warning; equal hashes allow the skip.
pub open spec fn spec_hash_verdict(
    source_hash: Option<Seq<u8>>,
    destination_hash: Option<Seq<u8>>,
) -> HashVerdict {
    match (source_hash, destination_hash) {
        (Some(s), Some(d)) => if s == d {
            HashVerdict::Skip
        } else {
            HashVerdict::MustCopy
        },
        _ => HashVerdict::MustCopyHashWarning,
    }
}

/// The hash views of optionally available hash bytes.
pub open spec fn opt_bytes(o: Option<Vec<u8>>) -> Option<Seq<u8>> {
    match o {
        Some(v) => Some(v@),
        None => None,
    }
}

/// The full two-stage decision: the copy is skipped exactly when the
/// metadata stage defers to the hashes and the hashes agree.
pub open spec fn spec_skip_copy(
    destination_exists: bool,
    source_metadata: Option<FileMetaData>,
    destination_metadata: Option<FileMetaData>,
    source_hash: Option<Seq<u8>>,
    destination_hash: Option<Seq<u8>>,
) -> bool {
    &&& spec_metadata_verdict(destination_exists, source_metadata, destination_metadata)
        == MetaVerdict::CheckHashes
    &&& spec_hash_verdict(source_hash, destination_hash) == HashVerdict::Skip
}

/// Equality of two kinds of filesystem entry.
pub fn file_kind_equal(a: &FileKind, b: &FileKind) -> (r: bool)
    ensures
        r == (a == b),
{
    match (a, b) {
        (FileKind::File, FileKind::File) => true,
        (FileKind::Directory, FileKind::Directory) => true,
        (FileKind::Symlink, FileKind::Symlink) => true,
        (FileKind::Other, FileKind::Other) => true,
        _ => false,
    }
}

/// Equality of two metadata snapshots, field by field.
pub fn metadata_equal(a: &FileMetaData, b: &FileMetaData) -> (r: bool)
    ensures
        r == (a == b),
{
    let modified_equal = match (a.modified, b.modified) {
        (Some(x), Some(y)) => x == y,
        (None, None) => true,
        _ => false,
    };
    modified_equal && a.length == b.length && file_kind_equal(&a.file_type, &b.file_type)
        && a.permissions == b.permissions
}

/// The metadata stage, executably.
pub fn metadata_verdict(
    destination_exists: bool,
    source_metadata: &Option<FileMetaData>,
    destination_metadata: &Option<FileMetaData>,
) -> (r: MetaVerdict)
    ensures
        r == spec_metadata_verdict(destination_exists, *source_metadata, *destination_metadata),
{
    if !destination_exists {
        return MetaVerdict::MustCopy;
    }
    match (source_metadata, destination_metadata) {
        (Some(s), Some(d)) => if metadata_equal(s, d) {
            MetaVerdict::CheckHashes
        } else {
            MetaVerdict::MustCopy
        },
        (None, None) => MetaVerdict::CheckHashes,
        _ => MetaVerdict::MustCopyMetadataWarning,
    }
}

/// Byte-for-byte equality of two buffers.
pub fn bytes_equal(a: &Vec<u8>, b: &Vec<u8>) -> (r: bool)
    ensures
        r == (a@ == b@),
{
    if a.len() != b.len() {
        return false;
    }
    let mut i: usize = 0;
    while i < a.len()
        invariant
            a@.len() == b@.len(),
            0 <= i <= a@.len(),
            forall|j: int| 0 <= j < i ==> a@[j] == b@[j],
        decreases a@.len() - i,
    {
        if a[i] != b[i] {
            return false;
        }
        i += 1;
    }
    proof {
        assert(a@ =~= b@);
    }
    true
}

/// The hash stage, executably.
pub fn hash_verdict(
    source_hash: &Option<Vec<u8>>,
    destination_hash: &Option<Vec<u8>>,
) -> (r: HashVerdict)
    ensures
        r == spec_hash_verdict(opt_bytes(*source_hash), opt_bytes(*destination_hash)),
{
    match (source_hash, destination_hash) {
        (Some(s), Some(d)) => if bytes_equal(s, d) {
            HashVerdict::Skip
        } else {
            HashVerdict::MustCopy
        },
        _ => HashVerdict::MustCopyHashWarning,
    }
}

/// The full two-stage decision on already-gathered facts. Callers that
/// want to hash lazily run [`metadata_verdict`] first and hash only on
/// `CheckHashes`.
pub fn skip_copy(
    destination_exists: bool,
    source_metadata: &Option<FileMetaData>,
    destination_metadata: &Option<FileMetaData>,
    source_hash: &Option<Vec<u8>>,
    destination_hash: &Option<Vec<u8>>,
) -> (r: bool)
    ensures
        r == spec_skip_copy(
            destination_exists,
            *source_metadata,
            *destination_metadata,
            opt_bytes(*source_hash),
            opt_bytes(*destination_hash),
        ),
{
    let meta = metadata_verdict(destination_exists, source_metadata, destination_metadata);
    match meta {
        MetaVerdict::CheckHashes => match hash_verdict(source_hash, destination_hash) {
            HashVerdict::Skip => true,
            _ => false,
        },
        _ => false,
    }
}

/// The digest blake3 computes: a function of the input bytes alone.
pub uninterp spec fn blake3_of(bytes: Seq<u8>) -> Seq<u8>;

/// Relies on blake3::hash: a 32-byte digest of the input bytes, depending
/// on nothing but them.
#[verifier::external_body]
fn blake3_digest(data: &Vec<u8>) -> (r: Vec<u8>)
    ensures
        r@ == blake3_of(data@),
        r@.len() == 32,
{
    blake3::hash(data.as_slice()).as_slice().to_vec()
}

/// The content hash that change detection compares.
pub fn content_hash(data: &Vec<u8>) -> (r: Vec<u8>)
    ensures
        r@ == blake3_of(data@),
        r@.len() == 32,
{
    blake3_digest(data)
}

/// Do two byte streams carry the same digest? This is the comparison the
/// hash stage makes once metadata already agrees.
pub fn contents_match(a: &Vec<u8>, b: &Vec<u8>) -> (r: bool)
    ensures
        r == (blake3_of(a@) == blake3_of(b@)),
{
    let source_hash = blake3_digest(a);
    let destination_hash = blake3_digest(b);
    bytes_equal(&source_hash, &destination_hash)
}

} // verus!
