//! Breadth-first directory traversal, as a pure state machine.
//!
//! The walker keeps a FIFO queue of directories still to be read, seeded
//! with the root. The driver reads directory entries and feeds them in one
//! at a time; directories found are enqueued at the back, files are yielded
//! immediately in files-only mode, and a directory is yielded when it is
//! dequeued and opened in directories-only mode. FIFO order guarantees that
//! every directory is reached before any of its descendants — the ordering
//! the directory mirror and the purge rely on. A read error never stops the
//! traversal: the driver records the error the walker hands back and goes
//! on; a directory that cannot be opened is simply never descended into.

use vstd::prelude::*;

use crate::errors::{FileBackupErrorKind, ProcessPathError};

verus! {

/// What a traversal yields: every file below the root, or every directory
/// strictly below it.
#[derive(Debug, Clone, Copy, PartialEq, Eq)]
pub enum ReadDirType {
    DirectoriesOnly,
    FilesOnly,
}

/// The traversal state: the root, the mode, the FIFO queue of directories
/// discovered but not yet read, and the directory currently being read
/// (errors on entries are charged to it).
#[derive(Debug)]
pub struct RecursiveReadDir {
    pub for_root: String,
    pub readdir_type: ReadDirType,
    pub next_readdirs: Vec<String>,
    pub current_dirpath: String,
}

impl RecursiveReadDir {
    /// A walker about to read the root itself, with an empty queue. The
    /// driver opens the root before constructing this.
    pub fn new(directory: String, readdir_type: ReadDirType) -> (w: Self)
        ensures
            w.for_root@ == directory@,
            w.readdir_type == readdir_type,
            w.next_readdirs@.len() == 0,
            w.current_dirpath@ == directory@,
    {
        let current_dirpath = directory.clone();
        RecursiveReadDir {
            for_root: directory,
            readdir_type,
            next_readdirs: Vec::new(),
            current_dirpath,
        }
    }

    /// The root the traversal started from.
    pub fn root_directory(&self) -> (r: &str)
        ensures
            r@ == self.for_root@,
    {
        self.for_root.as_str()
    }

    /// One entry of the directory currently being read. A directory joins
    /// the back of the queue and is never yielded here; a file is yielded
    /// exactly in files-only mode.
    pub fn on_entry(&mut self, path: String, entry_is_dir: bool) -> (r: Option<String>)
        ensures
            final(self).for_root == old(self).for_root,
            final(self).readdir_type == old(self).readdir_type,
            final(self).current_dirpath == old(self).current_dirpath,
            entry_is_dir ==> {
                &&& final(self).next_readdirs@ == old(self).next_readdirs@.push(path)
                &&& r is None
            },
            !entry_is_dir ==> {
                &&& final(self).next_readdirs@ == old(self).next_readdirs@
                &&& (old(self).readdir_type == ReadDirType::FilesOnly ==> r == Some(path))
                &&& (old(self).readdir_type == ReadDirType::DirectoriesOnly ==> r is None)
            },
    {
        if entry_is_dir {
            self.next_readdirs.push(path);
            None
        } else {
            match self.readdir_type {
                ReadDirType::FilesOnly => Some(path),
                ReadDirType::DirectoriesOnly => None,
            }
        }
    }

    /// The error yielded when an entry of the current directory cannot be
    /// read; the traversal then goes on with the remaining entries.
    pub fn entry_error(&self, io_error: &str) -> (e: ProcessPathError)
        ensures
            e.not_processed is None,
            e.kind matches FileBackupErrorKind::CannotGetDirEntry { in_dir, io_error: io }
                && in_dir@ == self.current_dirpath@ && io@ == io_error@,
    {
        ProcessPathError {
            not_processed: None,
            kind: FileBackupErrorKind::CannotGetDirEntry {
                in_dir: self.current_dirpath.clone(),
                io_error: io_error.to_owned(),
            },
        }
    }

    /// Once the current directory is drained: the next directory to open,
    /// in discovery (FIFO) order, or `None` when the traversal is finished.
    pub fn advance(&mut self) -> (r: Option<String>)
        ensures
            final(self).for_root == old(self).for_root,
            final(self).readdir_type == old(self).readdir_type,
            final(self).current_dirpath == old(self).current_dirpath,
            old(self).next_readdirs@.len() == 0 ==> {
                &&& r is None
                &&& final(self).next_readdirs@ == old(self).next_readdirs@
            },
            old(self).next_readdirs@.len() > 0 ==> {
                &&& r == Some(old(self).next_readdirs@[0])
                &&& final(self).next_readdirs@ == old(self).next_readdirs@.drop_first()
            },
    {
        if self.next_readdirs.len() == 0 {
            None
        } else {
            let d = self.next_readdirs.remove(0);
            proof {
                assert(self.next_readdirs@ =~= old(self).next_readdirs@.drop_first());
            }
            Some(d)
        }
    }

    /// The dequeued directory was opened: reading continues there, and in
    /// directories-only mode the directory itself is yielded now.
    pub fn enter_directory(&mut self, directory: String) -> (r: Option<String>)
        ensures
            final(self).for_root == old(self).for_root,
            final(self).readdir_type == old(self).readdir_type,
            final(self).next_readdirs@ == old(self).next_readdirs@,
            final(self).current_dirpath@ == directory@,
            old(self).readdir_type == ReadDirType::DirectoriesOnly ==> (r matches Some(d) && d@
                == directory@),
            old(self).readdir_type == ReadDirType::FilesOnly ==> r is None,
    {
        self.current_dirpath = directory.clone();
        match self.readdir_type {
            ReadDirType::DirectoriesOnly => Some(directory),
            ReadDirType::FilesOnly => None,
        }
    }

    /// The error yielded when the dequeued directory cannot be opened; the
    /// walker never descends into it.
    pub fn open_error(&self, directory: String, io_error: &str) -> (e: ProcessPathError)
        ensures
            e.not_processed matches Some(p) && p@ == directory@,
            e.kind matches FileBackupErrorKind::CannotReadDirectoryContent { io_error: io } && io@
                == io_error@,
    {
        ProcessPathError {
            not_processed: Some(directory),
            kind: FileBackupErrorKind::CannotReadDirectoryContent {
                io_error: io_error.to_owned(),
            },
        }
    }
}

} // verus!
