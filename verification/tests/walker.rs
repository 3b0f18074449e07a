use safeall::errors::FileBackupErrorKind;
use safeall::walker::{ReadDirType, RecursiveReadDir};

// A small tree:
//   root/b.txt
//   root/a/one.txt
//   root/c/
//   root/a/d/two.txt
// Directory entries are fed in the order a reader would yield them.

#[test]
fn files_walk_is_breadth_first() {
    let mut walker = RecursiveReadDir::new("root".to_string(), ReadDirType::FilesOnly);
    assert_eq!(walker.root_directory(), "root");
    let mut yielded: Vec<String> = Vec::new();

    // Reading "root": a file is yielded at once, directories only queue up.
    assert_eq!(walker.on_entry("root/b.txt".to_string(), false), Some("root/b.txt".to_string()));
    yielded.push("root/b.txt".to_string());
    assert_eq!(walker.on_entry("root/a".to_string(), true), None);
    assert_eq!(walker.on_entry("root/c".to_string(), true), None);

    // "root" is drained; directories come back in discovery order.
    let next = walker.advance().unwrap();
    assert_eq!(next, "root/a");
    assert_eq!(walker.enter_directory(next), None);
    assert_eq!(
        walker.on_entry("root/a/one.txt".to_string(), false),
        Some("root/a/one.txt".to_string())
    );
    yielded.push("root/a/one.txt".to_string());
    assert_eq!(walker.on_entry("root/a/d".to_string(), true), None);

    let next = walker.advance().unwrap();
    assert_eq!(next, "root/c");
    assert_eq!(walker.enter_directory(next), None);

    let next = walker.advance().unwrap();
    assert_eq!(next, "root/a/d");
    assert_eq!(walker.enter_directory(next), None);
    assert_eq!(
        walker.on_entry("root/a/d/two.txt".to_string(), false),
        Some("root/a/d/two.txt".to_string())
    );
    yielded.push("root/a/d/two.txt".to_string());

    assert_eq!(walker.advance(), None);
    assert_eq!(yielded, vec!["root/b.txt", "root/a/one.txt", "root/a/d/two.txt"]);
}

#[test]
fn directories_walk_yields_on_entering() {
    let mut walker = RecursiveReadDir::new("root".to_string(), ReadDirType::DirectoriesOnly);
    let mut yielded: Vec<String> = Vec::new();

    // Files are never yielded in directories-only mode.
    assert_eq!(walker.on_entry("root/b.txt".to_string(), false), None);
    assert_eq!(walker.on_entry("root/a".to_string(), true), None);
    assert_eq!(walker.on_entry("root/c".to_string(), true), None);

    let next = walker.advance().unwrap();
    if let Some(dir) = walker.enter_directory(next) {
        yielded.push(dir);
    }
    assert_eq!(walker.on_entry("root/a/one.txt".to_string(), false), None);
    assert_eq!(walker.on_entry("root/a/d".to_string(), true), None);

    let next = walker.advance().unwrap();
    if let Some(dir) = walker.enter_directory(next) {
        yielded.push(dir);
    }

    let next = walker.advance().unwrap();
    if let Some(dir) = walker.enter_directory(next) {
        yielded.push(dir);
    }
    assert_eq!(walker.on_entry("root/a/d/two.txt".to_string(), false), None);

    assert_eq!(walker.advance(), None);
    // Parents always come before their descendants.
    assert_eq!(yielded, vec!["root/a", "root/c", "root/a/d"]);
}

#[test]
fn entry_error_names_the_directory_being_read() {
    let mut walker = RecursiveReadDir::new("root".to_string(), ReadDirType::FilesOnly);
    walker.on_entry("root/a".to_string(), true);
    let next = walker.advance().unwrap();
    walker.enter_directory(next);

    let e = walker.entry_error("interrupted");
    assert!(e.not_processed.is_none());
    match e.kind {
        FileBackupErrorKind::CannotGetDirEntry { in_dir, io_error } => {
            assert_eq!(in_dir, "root/a");
            assert_eq!(io_error, "interrupted");
        }
        other => panic!("wrong error kind: {other:?}"),
    }
}

#[test]
fn open_error_marks_the_subtree_unprocessed() {
    let walker = RecursiveReadDir::new("root".to_string(), ReadDirType::FilesOnly);
    let e = walker.open_error("root/locked".to_string(), "permission denied");
    assert_eq!(e.not_processed.as_deref(), Some("root/locked"));
    match e.kind {
        FileBackupErrorKind::CannotReadDirectoryContent { io_error } => {
            assert_eq!(io_error, "permission denied");
        }
        other => panic!("wrong error kind: {other:?}"),
    }
}
