use safeall::errors::FileBackupErrorKind;
use safeall::messages::{Increment, Info, Message, Progress};
use safeall::order::{contains_path, insert_sorted, path_le};
use safeall::purge::{
    get_paths_in_destinatination_but_not_in_source, relative_paths, DeleteOutcome, PurgeEngine,
};

fn strings(items: &[&str]) -> Vec<String> {
    items.iter().map(|s| s.to_string()).collect()
}

#[test]
fn lex_order_puts_ancestors_first() {
    assert!(path_le("a/b", "a/b/c"));
    assert!(!path_le("a/b/c", "a/b"));
    assert!(path_le("a/b", "a/b"));
    assert!(path_le("backup/m", "backup/m2"));
    assert!(path_le("", "a"));
    assert!(!path_le("a", ""));
}

#[test]
fn insert_sorted_keeps_order() {
    let mut v: Vec<String> = Vec::new();
    insert_sorted(&mut v, "d/x".to_string());
    insert_sorted(&mut v, "a/b".to_string());
    insert_sorted(&mut v, "a/b/c".to_string());
    insert_sorted(&mut v, "b".to_string());
    assert_eq!(v, strings(&["a/b", "a/b/c", "b", "d/x"]));
    assert!(contains_path(&v, "a/b/c"));
    assert!(!contains_path(&v, "a/b/"));
}

#[test]
fn relative_paths_strips_the_root() {
    let rels = relative_paths("data", &strings(&["data/a", "data/b/c", "data"])).unwrap();
    assert_eq!(rels, strings(&["a", "b/c", ""]));

    let err = relative_paths("data", &strings(&["data/a", "other/b"])).unwrap_err();
    assert_eq!(err.not_processed.as_deref(), Some("other/b"));
}

#[test]
fn diff_is_stale_entries_sorted_ancestors_first() {
    // The destination still holds a whole stale subtree and one stale file.
    let source = strings(&["data/keep.txt", "data/sub/also.txt"]);
    let destination = strings(&[
        "backup/stale/deep/file.txt",
        "backup/keep.txt",
        "backup/stale.txt",
        "backup/sub/also.txt",
        "backup/stale",
        "backup/stale/deep",
    ]);
    let plan = get_paths_in_destinatination_but_not_in_source(
        "data",
        &source,
        "backup",
        &destination,
    )
    .unwrap();
    assert_eq!(
        plan,
        strings(&[
            "backup/stale",
            "backup/stale.txt",
            "backup/stale/deep",
            "backup/stale/deep/file.txt",
        ])
    );
}

#[test]
fn diff_ignores_duplicates_and_order() {
    let source = strings(&["s/a"]);
    let destination = strings(&["d/b", "d/a", "d/b"]);
    let plan =
        get_paths_in_destinatination_but_not_in_source("s", &source, "d", &destination).unwrap();
    assert_eq!(plan, strings(&["d/b"]));
}

#[test]
fn diff_of_mirrored_trees_is_empty() {
    let source = strings(&["data/a", "data/sub/b"]);
    let destination = strings(&["backup/a", "backup/sub/b"]);
    let plan = get_paths_in_destinatination_but_not_in_source(
        "data",
        &source,
        "backup",
        &destination,
    )
    .unwrap();
    assert!(plan.is_empty());
}

#[test]
fn diff_reports_first_stray_path() {
    let err = get_paths_in_destinatination_but_not_in_source(
        "data",
        &strings(&["data/a", "stray"]),
        "backup",
        &strings(&["backup/a"]),
    )
    .unwrap_err();
    assert_eq!(err.not_processed.as_deref(), Some("stray"));

    let err = get_paths_in_destinatination_but_not_in_source(
        "data",
        &strings(&["data/a"]),
        "backup",
        &strings(&["backup/a", "lost"]),
    )
    .unwrap_err();
    assert_eq!(err.not_processed.as_deref(), Some("lost"));
}

#[test]
fn purge_engine_skips_below_deleted_directories() {
    let mut engine = PurgeEngine::new();

    let (proceed, message) = engine.start_delete_dir("backup/stale");
    assert!(proceed);
    assert_eq!(message, Message::Info(Info::StartDeletingDir("backup/stale".to_string())));
    let m = engine.record_dir_outcome("backup/stale", true, "");
    assert_eq!(
        m,
        Some(Message::Progress(Progress::Increment(Increment::DeletedDir(
            "backup/stale".to_string()
        ))))
    );

    // The nested stale directory is already gone with its parent.
    let (proceed, message) = engine.start_delete_dir("backup/stale/deep");
    assert!(!proceed);
    assert_eq!(
        message,
        Message::Progress(Progress::Increment(Increment::DirectoryAlreadyDeleted(
            "backup/stale/deep".to_string()
        )))
    );

    // So is a file below it; a file elsewhere still gets deleted.
    let (proceed, message) = engine.start_delete_file("backup/stale/deep/file.txt");
    assert!(!proceed);
    assert!(message.is_none());
    let (proceed, message) = engine.start_delete_file("backup/stale.txt");
    assert!(proceed);
    assert_eq!(
        message,
        Some(Message::Info(Info::StartDeletingFile("backup/stale.txt".to_string())))
    );

    assert!(engine.errors.is_empty());
}

#[test]
fn purge_engine_records_failures() {
    let mut engine = PurgeEngine::new();

    let m = engine.record_dir_outcome("backup/stuck", false, "permission denied");
    assert!(m.is_none());
    assert_eq!(engine.errors.len(), 1);
    assert_eq!(engine.errors[0].not_processed.as_deref(), Some("backup/stuck"));
    match &engine.errors[0].kind {
        FileBackupErrorKind::CannotDeleteDirectory { io_error } => {
            assert_eq!(io_error, "permission denied");
        }
        other => panic!("wrong error kind: {other:?}"),
    }
    // A failed directory is not remembered as deleted.
    let (proceed, _) = engine.start_delete_dir("backup/stuck/inner");
    assert!(proceed);

    let m = engine.record_file_outcome("backup/f", DeleteOutcome::Failed("busy".to_string()));
    assert!(m.is_none());
    assert_eq!(engine.errors.len(), 2);
    match &engine.errors[1].kind {
        FileBackupErrorKind::CannotDeleteFile { io_error } => assert_eq!(io_error, "busy"),
        other => panic!("wrong error kind: {other:?}"),
    }
}

#[test]
fn purge_engine_counts_absent_file_as_deleted() {
    let mut engine = PurgeEngine::new();
    let m = engine.record_file_outcome("backup/gone", DeleteOutcome::AlreadyAbsent);
    assert_eq!(
        m,
        Some(Message::Progress(Progress::Increment(Increment::DeletedFile(
            "backup/gone".to_string()
        ))))
    );
    let m = engine.record_file_outcome("backup/there", DeleteOutcome::Deleted);
    assert_eq!(
        m,
        Some(Message::Progress(Progress::Increment(Increment::DeletedFile(
            "backup/there".to_string()
        ))))
    );
    assert!(engine.errors.is_empty());
}
