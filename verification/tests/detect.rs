use safeall::detect::{
    bytes_equal, content_hash, contents_match, hash_verdict, metadata_verdict, skip_copy,
    FileKind, FileMetaData, HashVerdict, MetaVerdict,
};

fn meta(modified: Option<u64>, length: u64) -> FileMetaData {
    FileMetaData { modified, length, file_type: FileKind::File, permissions: 0o644 }
}

#[test]
fn absent_destination_must_copy() {
    let m = Some(meta(Some(10), 3));
    assert_eq!(metadata_verdict(false, &m, &None), MetaVerdict::MustCopy);
    assert_eq!(metadata_verdict(false, &m, &m.clone()), MetaVerdict::MustCopy);
}

#[test]
fn one_sided_metadata_warns_and_copies() {
    let m = Some(meta(Some(10), 3));
    assert_eq!(metadata_verdict(true, &m, &None), MetaVerdict::MustCopyMetadataWarning);
    assert_eq!(metadata_verdict(true, &None, &m), MetaVerdict::MustCopyMetadataWarning);
}

#[test]
fn differing_metadata_must_copy() {
    let a = Some(meta(Some(10), 3));
    let longer = Some(meta(Some(10), 4));
    let touched = Some(meta(Some(11), 3));
    let readonly = Some(FileMetaData {
        modified: Some(10),
        length: 3,
        file_type: FileKind::File,
        permissions: 0o444,
    });
    assert_eq!(metadata_verdict(true, &a, &longer), MetaVerdict::MustCopy);
    assert_eq!(metadata_verdict(true, &a, &touched), MetaVerdict::MustCopy);
    assert_eq!(metadata_verdict(true, &a, &readonly), MetaVerdict::MustCopy);
}

#[test]
fn equal_metadata_defers_to_hashes() {
    let a = Some(meta(Some(10), 3));
    assert_eq!(metadata_verdict(true, &a, &a.clone()), MetaVerdict::CheckHashes);
    // Both sides unreadable count as agreeing: only the hashes can tell.
    assert_eq!(metadata_verdict(true, &None, &None), MetaVerdict::CheckHashes);
}

#[test]
fn hash_stage_decides_by_content() {
    let a = Some(vec![1u8, 2, 3]);
    let b = Some(vec![1u8, 2, 4]);
    assert_eq!(hash_verdict(&a, &a.clone()), HashVerdict::Skip);
    assert_eq!(hash_verdict(&a, &b), HashVerdict::MustCopy);
    assert_eq!(hash_verdict(&a, &None), HashVerdict::MustCopyHashWarning);
    assert_eq!(hash_verdict(&None, &a), HashVerdict::MustCopyHashWarning);
    assert_eq!(hash_verdict(&None, &None), HashVerdict::MustCopyHashWarning);
}

#[test]
fn skip_only_when_everything_agrees() {
    let m = Some(meta(Some(10), 1));
    let h = Some(vec![9u8; 32]);
    let other = Some(vec![8u8; 32]);
    assert!(skip_copy(true, &m, &m.clone(), &h, &h.clone()));
    assert!(!skip_copy(false, &m, &m.clone(), &h, &h.clone()));
    assert!(!skip_copy(true, &m, &None, &h, &h.clone()));
    assert!(!skip_copy(true, &m, &m.clone(), &h, &other));
    assert!(!skip_copy(true, &m, &m.clone(), &h, &None));
}

#[test]
fn altered_content_with_same_metadata_is_recopied() {
    // Same length, same metadata, different bytes: the hash stage catches it.
    let m = Some(meta(Some(10), 1));
    let src = vec![b'A'];
    let dst = vec![b'B'];
    assert_eq!(metadata_verdict(true, &m, &m.clone()), MetaVerdict::CheckHashes);
    let sh = Some(content_hash(&src));
    let dh = Some(content_hash(&dst));
    assert_eq!(hash_verdict(&sh, &dh), HashVerdict::MustCopy);
    assert!(!skip_copy(true, &m, &m.clone(), &sh, &dh));
}

#[test]
fn content_hash_is_the_blake3_digest() {
    let data = vec![b'A'];
    let digest = content_hash(&data);
    assert_eq!(digest.len(), 32);
    assert_ne!(digest, data);
    assert_eq!(digest.as_slice(), blake3::hash(b"A").as_slice());

    let empty: Vec<u8> = Vec::new();
    let empty_digest = content_hash(&empty);
    assert_eq!(empty_digest.as_slice(), blake3::hash(b"").as_slice());
    assert_ne!(empty_digest, digest);
}

#[test]
fn contents_match_compares_digests() {
    assert!(contents_match(&vec![b'A'], &vec![b'A']));
    assert!(!contents_match(&vec![b'A'], &vec![b'B']));
    assert!(!contents_match(&vec![b'A'], &vec![b'A', b'A']));
}

#[test]
fn bytes_equal_is_exact() {
    assert!(bytes_equal(&vec![1, 2, 3], &vec![1, 2, 3]));
    assert!(!bytes_equal(&vec![1, 2, 3], &vec![1, 2]));
    assert!(!bytes_equal(&vec![1, 2, 3], &vec![1, 2, 4]));
    assert!(bytes_equal(&Vec::new(), &Vec::new()));
}
