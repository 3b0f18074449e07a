use safeall::engine::{
    begin_destination_root, check_source_root, finish_destination_root, finish_run,
    plan_of_command, purge_diff_failure, walk_open_failure, Command,
};
use safeall::errors::{Error, FileBackupErrorKind, ProcessPathError};
use safeall::messages::{Info, Message};

#[test]
fn backup_plan_copies_source_to_destination() {
    let plan = plan_of_command(Command::Backup {
        source_root: "data".to_string(),
        destination_root: "backup".to_string(),
    });
    assert_eq!(plan.backup_from, "data");
    assert_eq!(plan.backup_to, "backup");
    assert!(!plan.purge);
}

#[test]
fn sync_plan_also_purges() {
    let plan = plan_of_command(Command::Sync {
        source_root: "data".to_string(),
        destination_root: "backup".to_string(),
    });
    assert_eq!(plan.backup_from, "data");
    assert_eq!(plan.backup_to, "backup");
    assert!(plan.purge);
}

#[test]
fn restore_plan_swaps_the_roles() {
    let plan = plan_of_command(Command::Restore {
        source_root: "data".to_string(),
        destination_root: "backup".to_string(),
        delete_files: true,
    });
    // Validation still sees the caller's roots...
    assert_eq!(plan.source_root, "data");
    assert_eq!(plan.destination_root, "backup");
    // ...but the backup is the authoritative side being copied back.
    assert_eq!(plan.backup_from, "backup");
    assert_eq!(plan.backup_to, "data");
    assert!(plan.purge);

    let plan = plan_of_command(Command::Restore {
        source_root: "data".to_string(),
        destination_root: "backup".to_string(),
        delete_files: false,
    });
    assert!(!plan.purge);
}

#[test]
fn missing_source_root_is_fatal() {
    assert!(check_source_root("data", true).is_ok());
    match check_source_root("data", false).unwrap_err() {
        Error::SourceRootPathDoesNotExist(p) => assert_eq!(p, "data"),
        other => panic!("wrong error: {other:?}"),
    }
}

#[test]
fn missing_destination_root_is_created() {
    let (create, message) = begin_destination_root("backup", true);
    assert!(!create);
    assert!(message.is_none());

    let (create, message) = begin_destination_root("backup", false);
    assert!(create);
    assert_eq!(
        message,
        Some(Message::Info(Info::CreatingDestinationDir("backup".to_string())))
    );

    let (result, message) = finish_destination_root("backup", true, true, "", true);
    assert!(result.is_ok());
    assert_eq!(
        message,
        Some(Message::Info(Info::DestinationDirCreated("backup".to_string())))
    );
}

#[test]
fn uncreatable_destination_root_is_fatal() {
    let (result, message) = finish_destination_root("backup", true, false, "read-only", true);
    assert!(message.is_none());
    match result.unwrap_err() {
        Error::CannotCreateRootDestinationDir(p, io) => {
            assert_eq!(p, "backup");
            assert_eq!(io, "read-only");
        }
        other => panic!("wrong error: {other:?}"),
    }
}

#[test]
fn destination_root_that_is_a_file_is_fatal() {
    let (result, message) = finish_destination_root("backup", false, false, "", false);
    assert!(message.is_none());
    match result.unwrap_err() {
        Error::RootDestinatinIsNotADirectory(p) => assert_eq!(p, "backup"),
        other => panic!("wrong error: {other:?}"),
    }
}

#[test]
fn unopenable_root_is_fatal() {
    match walk_open_failure("data", "not found") {
        Error::CannotReadDirectoryContent(p, io) => {
            assert_eq!(p, "data");
            assert_eq!(io, "not found");
        }
        other => panic!("wrong error: {other:?}"),
    }
}

#[test]
fn failed_purge_diff_carries_its_error() {
    let inner = ProcessPathError {
        not_processed: Some("stray".to_string()),
        kind: FileBackupErrorKind::CannotReadDirectoryContent { io_error: "gone".to_string() },
    };
    match purge_diff_failure(inner.clone()) {
        Error::FileBackupErrors(v) => assert_eq!(v, vec![inner]),
        other => panic!("wrong error: {other:?}"),
    }
}

#[test]
fn run_succeeds_exactly_when_nothing_failed() {
    assert!(finish_run(Vec::new()).is_ok());

    let e = ProcessPathError {
        not_processed: None,
        kind: FileBackupErrorKind::CannotDeleteFile { io_error: "busy".to_string() },
    };
    match finish_run(vec![e.clone()]).unwrap_err() {
        Error::FileBackupErrors(v) => assert_eq!(v, vec![e]),
        other => panic!("wrong error: {other:?}"),
    }
}

#[test]
fn style_names_are_fixed() {
    assert_eq!(safeall::style::warning_dotted(), "yellow");
    assert_eq!(safeall::style::success_dotted(), "green");
    assert_eq!(safeall::style::info_dotted(), "");
    assert_eq!(safeall::style::increment_fail_dotted(), "red");
    assert_eq!(safeall::style::error_dotted(), "124");
    assert_eq!(safeall::style::increment_success_dotted(), "7");
}
