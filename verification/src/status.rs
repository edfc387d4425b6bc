//! The status report: what the queue and the capture directory held over the
//! last day.

use vstd::prelude::*;
use crate::task::{not_after, task_views, Task, TaskStatus, TaskView, Timestamp};

verus! {

/// Seconds in the span that the report looks back on.
pub const STATUS_SPAN_SECS: i64 = 86400;

/// A file of the capture directory as the report needs it.
#[derive(Clone, Copy, Debug, PartialEq, Eq, Structural)]
pub struct FileStat {
    /// Seconds since the Unix epoch of the last change.
    pub modified_secs: i64,
    /// The size in bytes.
    pub len: u64,
    /// Whether it is a regular file.
    pub is_file: bool,
}

/// The counts of the status report.
#[derive(Clone, Copy, Debug, PartialEq, Eq, Structural)]
pub struct StatusReport {
    pub pending: usize,
    pub processing: usize,
    pub created_recently: usize,
}

/// How many of the first `n` tasks have the status `status`.
pub open spec fn count_status(tasks: Seq<TaskView>, status: TaskStatus, n: nat) -> nat
    decreases n,
{
    if n == 0 {
        0
    } else {
        count_status(tasks, status, (n - 1) as nat) + if tasks[n - 1].status == status {
            1nat
        } else {
            0nat
        }
    }
}

/// How many of the first `n` tasks were created at `since` or later.
pub open spec fn count_created(tasks: Seq<TaskView>, since: Timestamp, n: nat) -> nat
    decreases n,
{
    if n == 0 {
        0
    } else {
        count_created(tasks, since, (n - 1) as nat) + if not_after(since, tasks[n - 1].created_at) {
            1nat
        } else {
            0nat
        }
    }
}

/// How many of the first `n` entries were changed at `since_secs` or later.
pub open spec fn count_recent(files: Seq<FileStat>, since_secs: i64, n: nat) -> nat
    decreases n,
{
    if n == 0 {
        0
    } else {
        count_recent(files, since_secs, (n - 1) as nat) + if files[n - 1].modified_secs
            >= since_secs {
            1nat
        } else {
            0nat
        }
    }
}

/// The bytes of the regular files among the first `n` entries that were
/// changed at `since_secs` or later.
pub open spec fn recent_bytes(files: Seq<FileStat>, since_secs: i64, n: nat) -> nat
    decreases n,
{
    if n == 0 {
        0
    } else {
        recent_bytes(files, since_secs, (n - 1) as nat) + if files[n - 1].is_file && files[n
            - 1].modified_secs >= since_secs {
            files[n - 1].len as nat
        } else {
            0nat
        }
    }
}

/// Builds the status report.
#[derive(Clone, Copy, Debug)]
pub struct StatusUseCase;

impl StatusUseCase {
    pub fn new() -> (s: StatusUseCase) {
        StatusUseCase
    }

    /// Counts the pending tasks, the tasks in processing, and the tasks
    /// created at `since` or later.
    pub fn summarize(&self, tasks: &Vec<Task>, since: Timestamp) -> (report: StatusReport)
        ensures
            report.pending == count_status(task_views(tasks@), TaskStatus::Pending, tasks@.len()),
            report.processing == count_status(
                task_views(tasks@),
                TaskStatus::Processing,
                tasks@.len(),
            ),
            report.created_recently == count_created(task_views(tasks@), since, tasks@.len()),
    {
        let mut pending: usize = 0;
        let mut processing: usize = 0;
        let mut created: usize = 0;
        let mut i: usize = 0;
        while i < tasks.len()
            invariant
                i <= tasks.len(),
                pending == count_status(task_views(tasks@), TaskStatus::Pending, i as nat),
                processing == count_status(task_views(tasks@), TaskStatus::Processing, i as nat),
                created == count_created(task_views(tasks@), since, i as nat),
                pending <= i,
                processing <= i,
                created <= i,
            decreases tasks.len() - i,
        {
            let task = &tasks[i];
            assert(task_views(tasks@)[i as int] == task@);
            if task.status == TaskStatus::Pending {
                pending += 1;
            }
            if task.status == TaskStatus::Processing {
                processing += 1;
            }
            if since.is_not_after(&task.created_at) {
                created += 1;
            }
            i += 1;
        }
        StatusReport { pending, processing, created_recently: created }
    }

    /// How many entries of the capture directory were changed at
    /// `since_secs` or later.
    pub fn count_recent_files(&self, files: &Vec<FileStat>, since_secs: i64) -> (n: usize)
        ensures
            n == count_recent(files@, since_secs, files@.len()),
    {
        let mut n: usize = 0;
        let mut i: usize = 0;
        while i < files.len()
            invariant
                i <= files.len(),
                n == count_recent(files@, since_secs, i as nat),
                n <= i,
            decreases files.len() - i,
        {
            if files[i].modified_secs >= since_secs {
                n += 1;
            }
            i += 1;
        }
        n
    }

    /// The bytes that were captured at `since_secs` or later: the sizes of
    /// the regular files changed since then, added up. `None` where the sum
    /// does not fit into a `u64`.
    pub fn recent_capture_bytes(&self, files: &Vec<FileStat>, since_secs: i64) -> (total: Option<
        u64,
    >)
        ensures
            match total {
                Some(t) => t == recent_bytes(files@, since_secs, files@.len()),
                None => recent_bytes(files@, since_secs, files@.len()) > u64::MAX,
            },
    {
        let mut total: u64 = 0;
        let mut i: usize = 0;
        while i < files.len()
            invariant
                i <= files.len(),
                total == recent_bytes(files@, since_secs, i as nat),
            decreases files.len() - i,
        {
            let f = files[i];
            if f.is_file && f.modified_secs >= since_secs {
                if f.len > u64::MAX - total {
                    proof {
                        lemma_recent_bytes_grow(files@, since_secs, (i + 1) as nat, files@.len());
                    }
                    return None;
                }
                total += f.len;
            }
            i += 1;
        }
        Some(total)
    }
}

/// The sum of bytes never shrinks as more files are looked at.
pub proof fn lemma_recent_bytes_grow(files: Seq<FileStat>, since_secs: i64, m: nat, n: nat)
    requires
        m <= n,
    ensures
        recent_bytes(files, since_secs, m) <= recent_bytes(files, since_secs, n),
    decreases n,
{
    if n > m {
        lemma_recent_bytes_grow(files, since_secs, m, (n - 1) as nat);
    }
}

} // verus!
