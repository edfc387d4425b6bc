//! The file watcher: which new files become tasks.

use vstd::prelude::*;
use vstd::string::*;
use crate::task::{Task, TaskStatus, TASK_TYPE_PROCESS_SESSION, TASK_TYPE_SYNC_ACTIVITY};
use crate::task_store::{after_add, TaskRepository};
use crate::text::{
    chars_of, extension, extension_of, lowercase, lowercase_of, str_eq, string_of, views_of,
};

verus! {

/// Seconds between two polls of the watched directory.
pub const WATCHER_POLL_INTERVAL_SECS: u64 = 2;

/// The task type for a new file with the extension `ext`: captures are
/// processed, activity logs are ingested, anything else is left alone. The
/// extension counts in lower case.
pub open spec fn task_type_of(ext: Option<Seq<char>>) -> Option<Seq<char>> {
    match ext {
        Some(e) => if lowercase_of(e) == "wav"@ || lowercase_of(e) == "flac"@ {
            Some(TASK_TYPE_PROCESS_SESSION@)
        } else if lowercase_of(e) == "jsonl"@ {
            Some(TASK_TYPE_SYNC_ACTIVITY@)
        } else {
            None
        },
        None => None,
    }
}

/// Watches one directory for new input files.
#[derive(Debug)]
pub struct FileWatcher {
    path: String,
}

impl FileWatcher {
    /// The directory that is watched.
    pub closed spec fn watched(&self) -> Seq<char> {
        self.path@
    }

    /// A watcher for the directory `path`.
    pub fn new(path: &str) -> (w: FileWatcher)
        ensures
            w.watched() == path@,
    {
        FileWatcher { path: String::from_str(path) }
    }

    /// The directory that is watched.
    pub fn path(&self) -> (p: &str)
        ensures
            p@ == self.watched(),
    {
        self.path.as_str()
    }

    /// The task type that the new file `path` asks for, if any.
    pub fn task_type_for(&self, path: &str) -> (out: Option<&'static str>)
        ensures
            task_type_of(extension_of(path@)) == match out {
                Some(t) => Some(t@),
                None => None,
            },
    {
        match extension(&chars_of(path)) {
            Some(ext) => {
                let low = lowercase(string_of(&ext).as_str());
                if str_eq(low.as_str(), "wav") || str_eq(low.as_str(), "flac") {
                    Some(TASK_TYPE_PROCESS_SESSION)
                } else if str_eq(low.as_str(), "jsonl") {
                    Some(TASK_TYPE_SYNC_ACTIVITY)
                } else {
                    None
                }
            },
            None => None,
        }
    }

    /// Takes note of the new file `path`: a capture or an activity log
    /// becomes one pending task with the file as its only input, any other
    /// file changes nothing.
    pub fn on_created(&self, repo: &mut TaskRepository, path: &str) -> (out: Option<Task>)
        ensures
            final(repo).location() == old(repo).location(),
            match out {
                Some(task) => {
                    &&& task_type_of(extension_of(path@)) == Some(task@.task_type)
                    &&& task@.status == TaskStatus::Pending
                    &&& task@.file_paths == seq![path@]
                    &&& final(repo).contents() == after_add(old(repo).contents(), task@)
                },
                None => {
                    &&& task_type_of(extension_of(path@)) is None
                    &&& final(repo).contents() == old(repo).contents()
                },
            },
    {
        match self.task_type_for(path) {
            Some(task_type) => {
                let mut inputs: Vec<String> = Vec::new();
                inputs.push(String::from_str(path));
                assert(views_of(inputs@) =~= seq![path@]);
                Some(repo.add(task_type, inputs))
            },
            None => None,
        }
    }
}

} // verus!
