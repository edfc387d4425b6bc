//! Tasks: the units of deferred work that the queue holds.

use vstd::prelude::*;
use vstd::string::*;
use crate::text::{clone_strings, str_eq, views_of};

verus! {

/// The task type of a finished capture that waits for processing.
pub const TASK_TYPE_PROCESS_SESSION: &'static str = "process_session";

/// The task type of an activity log that waits for ingestion.
pub const TASK_TYPE_SYNC_ACTIVITY: &'static str = "sync_activity";

/// The task type given to a legacy record that names none.
pub const TASK_TYPE_LEGACY: &'static str = "legacy";

pub const STATUS_PENDING: &'static str = "pending";

pub const STATUS_PROCESSING: &'static str = "processing";

pub const STATUS_COMPLETED: &'static str = "completed";

pub const STATUS_FAILED: &'static str = "failed";

/// Where a task stands in its life: `Pending`, then `Processing`, then
/// `Completed` or `Failed`.
#[derive(Clone, Copy, Debug, PartialEq, Eq, Structural)]
pub enum TaskStatus {
    Pending,
    Processing,
    Completed,
    Failed,
}

/// A point in time: seconds since the Unix epoch and the nanoseconds within
/// that second.
#[derive(Clone, Copy, Debug, PartialEq, Eq, Structural)]
pub struct Timestamp {
    pub secs: i64,
    pub nanos: u32,
}

/// `a` is not later than `b`.
pub open spec fn not_after(a: Timestamp, b: Timestamp) -> bool {
    a.secs < b.secs || (a.secs == b.secs && a.nanos <= b.nanos)
}

impl Timestamp {
    /// Whether this point in time is `other` or lies before it.
    pub fn is_not_after(&self, other: &Timestamp) -> (b: bool)
        ensures
            b == not_after(*self, *other),
    {
        self.secs < other.secs || (self.secs == other.secs && self.nanos <= other.nanos)
    }
}

/// The name under which the task document holds `status`.
pub open spec fn status_name(status: TaskStatus) -> Seq<char> {
    match status {
        TaskStatus::Pending => STATUS_PENDING@,
        TaskStatus::Processing => STATUS_PROCESSING@,
        TaskStatus::Completed => STATUS_COMPLETED@,
        TaskStatus::Failed => STATUS_FAILED@,
    }
}

/// The status that the task document calls `name`, if it is one.
pub open spec fn status_named(name: Seq<char>) -> Option<TaskStatus> {
    if name == STATUS_PENDING@ {
        Some(TaskStatus::Pending)
    } else if name == STATUS_PROCESSING@ {
        Some(TaskStatus::Processing)
    } else if name == STATUS_COMPLETED@ {
        Some(TaskStatus::Completed)
    } else if name == STATUS_FAILED@ {
        Some(TaskStatus::Failed)
    } else {
        None
    }
}

/// A status may only move forward: from `Pending` to `Processing`, and from
/// `Processing` to `Completed` or `Failed`.
pub open spec fn may_follow(from: TaskStatus, to: TaskStatus) -> bool {
    match from {
        TaskStatus::Pending => to == TaskStatus::Processing,
        TaskStatus::Processing => to == TaskStatus::Completed || to == TaskStatus::Failed,
        TaskStatus::Completed => false,
        TaskStatus::Failed => false,
    }
}

impl TaskStatus {
    /// The name under which the task document holds this status.
    pub fn as_str(&self) -> (name: &'static str)
        ensures
            name@ == status_name(*self),
    {
        match self {
            TaskStatus::Pending => STATUS_PENDING,
            TaskStatus::Processing => STATUS_PROCESSING,
            TaskStatus::Completed => STATUS_COMPLETED,
            TaskStatus::Failed => STATUS_FAILED,
        }
    }

    /// Reads a status name. `None` for any text that is not one of the four
    /// names.
    pub fn parse(name: &str) -> (status: Option<TaskStatus>)
        ensures
            status == status_named(name@),
    {
        if str_eq(name, STATUS_PENDING) {
            Some(TaskStatus::Pending)
        } else if str_eq(name, STATUS_PROCESSING) {
            Some(TaskStatus::Processing)
        } else if str_eq(name, STATUS_COMPLETED) {
            Some(TaskStatus::Completed)
        } else if str_eq(name, STATUS_FAILED) {
            Some(TaskStatus::Failed)
        } else {
            None
        }
    }

    /// Whether this status ends a task's life.
    pub fn is_terminal(&self) -> (b: bool)
        ensures
            b == (*self == TaskStatus::Completed || *self == TaskStatus::Failed),
    {
        match self {
            TaskStatus::Completed => true,
            TaskStatus::Failed => true,
            _ => false,
        }
    }

    /// Whether a task in this status may move to `to`.
    pub fn can_become(&self, to: TaskStatus) -> (b: bool)
        ensures
            b == may_follow(*self, to),
    {
        match self {
            TaskStatus::Pending => to == TaskStatus::Processing,
            TaskStatus::Processing => to == TaskStatus::Completed || to == TaskStatus::Failed,
            _ => false,
        }
    }
}

/// Reading back the name of a status gives that status.
pub proof fn lemma_status_name_round_trip(status: TaskStatus)
    ensures
        status_named(status_name(status)) == Some(status),
{
    reveal_strlit("pending");
    reveal_strlit("processing");
    reveal_strlit("completed");
    reveal_strlit("failed");
    assert(STATUS_PENDING@.len() == 7);
    assert(STATUS_PROCESSING@.len() == 10);
    assert(STATUS_COMPLETED@.len() == 9);
    assert(STATUS_FAILED@.len() == 6);
}

/// A task as contracts see it.
pub struct TaskView {
    pub id: Seq<char>,
    pub created_at: Timestamp,
    pub status: TaskStatus,
    pub task_type: Seq<char>,
    pub file_paths: Seq<Seq<char>>,
}

/// A unit of deferred work.
#[derive(Debug)]
pub struct Task {
    /// Unique and ordered by time of creation.
    pub id: String,
    pub created_at: Timestamp,
    pub status: TaskStatus,
    /// Names the handler that processes the task.
    pub task_type: String,
    /// The handler's inputs, in order.
    pub file_paths: Vec<String>,
}

impl View for Task {
    type V = TaskView;

    open spec fn view(&self) -> TaskView {
        TaskView {
            id: self.id@,
            created_at: self.created_at,
            status: self.status,
            task_type: self.task_type@,
            file_paths: views_of(self.file_paths@),
        }
    }
}

/// The tasks of `tasks` as contracts see them.
pub open spec fn task_views(tasks: Seq<Task>) -> Seq<TaskView> {
    tasks.map_values(|t: Task| t@)
}

impl Task {
    /// A new task, pending.
    pub fn new(id: String, created_at: Timestamp, task_type: &str, file_paths: Vec<String>) -> (t:
        Task)
        ensures
            t@ == (TaskView {
                id: id@,
                created_at,
                status: TaskStatus::Pending,
                task_type: task_type@,
                file_paths: views_of(file_paths@),
            }),
    {
        Task {
            id,
            created_at,
            status: TaskStatus::Pending,
            task_type: String::from_str(task_type),
            file_paths,
        }
    }

    /// A copy with the same fields.
    pub fn duplicate(&self) -> (t: Task)
        ensures
            t@ == self@,
    {
        Task {
            id: self.id.clone(),
            created_at: self.created_at,
            status: self.status,
            task_type: self.task_type.clone(),
            file_paths: clone_strings(&self.file_paths),
        }
    }
}

} // verus!
