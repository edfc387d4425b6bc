//! The task worker: which tasks it takes up, which handler runs them, and
//! which status a task gets when its handler is done.
//!
//! One task is processed at a time. The caller runs the poll loop and the
//! handlers; the functions here make every change to the store.
//!
//! A status only moves forward. A task that failed is not tried again, and
//! a task that a crash left in `Processing` stays there: the worker takes up
//! pending tasks only, and putting a task back is the operator's decision.

use vstd::prelude::*;
use vstd::string::*;
use crate::task::{
    may_follow, TaskStatus, TaskView, TASK_TYPE_PROCESS_SESSION, TASK_TYPE_SYNC_ACTIVITY,
};
use crate::task_store::{first_with_id, with_status, TaskRepository};
use crate::text::{clone_strings, str_eq, views_of};

verus! {

/// Seconds between two polls of the store.
pub const TASK_LOOP_INTERVAL_SECS: u64 = 30;

/// The handlers that the worker knows.
#[derive(Clone, Copy, Debug, PartialEq, Eq, Structural)]
pub enum Handler {
    /// Transcribe, clean, summarise and archive one capture.
    ProcessSession,
    /// Ingest one activity log.
    SyncActivity,
    /// No handler goes by the task's type.
    Unknown,
}

/// The handler that a task of type `task_type` goes to.
pub open spec fn handler_of(task_type: Seq<char>) -> Handler {
    if task_type == TASK_TYPE_PROCESS_SESSION@ {
        Handler::ProcessSession
    } else if task_type == TASK_TYPE_SYNC_ACTIVITY@ {
        Handler::SyncActivity
    } else {
        Handler::Unknown
    }
}

/// The handler that a task of type `task_type` goes to.
pub fn handler_for(task_type: &str) -> (h: Handler)
    ensures
        h == handler_of(task_type@),
{
    if str_eq(task_type, TASK_TYPE_PROCESS_SESSION) {
        Handler::ProcessSession
    } else if str_eq(task_type, TASK_TYPE_SYNC_ACTIVITY) {
        Handler::SyncActivity
    } else {
        Handler::Unknown
    }
}

/// A task that the worker has taken up, as contracts see it.
pub struct JobView {
    pub id: Seq<char>,
    pub handler: Handler,
    pub file_paths: Seq<Seq<char>>,
}

/// A task that the worker has taken up.
#[derive(Debug)]
pub struct Job {
    pub id: String,
    pub handler: Handler,
    pub file_paths: Vec<String>,
}

impl View for Job {
    type V = JobView;

    open spec fn view(&self) -> JobView {
        JobView { id: self.id@, handler: self.handler, file_paths: views_of(self.file_paths@) }
    }
}

/// The job that `task` becomes when the worker takes it up.
pub open spec fn job_of(task: TaskView) -> JobView {
    JobView { id: task.id, handler: handler_of(task.task_type), file_paths: task.file_paths }
}

/// The ids of the pending tasks among the first `n` tasks of `tasks`, in the
/// order of the tasks.
pub open spec fn pending_ids(tasks: Seq<TaskView>, n: nat) -> Seq<Seq<char>>
    decreases n,
{
    if n == 0 {
        Seq::empty()
    } else if tasks[n - 1].status == TaskStatus::Pending {
        pending_ids(tasks, (n - 1) as nat).push(tasks[n - 1].id)
    } else {
        pending_ids(tasks, (n - 1) as nat)
    }
}

/// The status that a handler's result gives its task: `Completed` after a
/// success, `Failed` after an error. A task of an unknown type keeps the
/// status it has.
pub open spec fn status_after(handler: Handler, succeeded: bool) -> Option<TaskStatus> {
    match handler {
        Handler::Unknown => None,
        _ => if succeeded {
            Some(TaskStatus::Completed)
        } else {
            Some(TaskStatus::Failed)
        },
    }
}

/// The store changed in one place only: the first task with the id `id`
/// moved from `from` to `to`.
pub open spec fn moved(
    before: Seq<TaskView>,
    after: Seq<TaskView>,
    id: Seq<char>,
    from: TaskStatus,
    to: TaskStatus,
) -> bool {
    exists|i: int|
        first_with_id(before, id, i) && before[i].status == from && after == before.update(
            i,
            with_status(before[i], to),
        )
}

/// The first task of `tasks` with the id `id` has the status `status`.
pub open spec fn stands_at(tasks: Seq<TaskView>, id: Seq<char>, status: TaskStatus) -> bool {
    exists|i: int| first_with_id(tasks, id, i) && tasks[i].status == status
}

/// Polls the store and runs its pending tasks, one at a time.
#[derive(Debug)]
pub struct TaskRunner {
    poll_interval_secs: u64,
}

impl TaskRunner {
    /// A worker that polls every `TASK_LOOP_INTERVAL_SECS` seconds.
    pub fn new() -> (runner: TaskRunner)
        ensures
            runner.interval() == TASK_LOOP_INTERVAL_SECS,
    {
        TaskRunner { poll_interval_secs: TASK_LOOP_INTERVAL_SECS }
    }

    /// Seconds between two polls.
    pub closed spec fn interval(&self) -> u64 {
        self.poll_interval_secs
    }

    /// Seconds between two polls.
    pub fn poll_interval_secs(&self) -> (secs: u64)
        ensures
            secs == self.interval(),
    {
        self.poll_interval_secs
    }

    /// The ids of the tasks that wait for the worker, oldest first: those
    /// with status `Pending`, and no others.
    pub fn pending(&self, repo: &TaskRepository) -> (ids: Vec<String>)
        ensures
            views_of(ids@) == pending_ids(repo.contents(), repo.contents().len()),
    {
        let mut ids: Vec<String> = Vec::new();
        let n: usize = repo.len();
        let mut i: usize = 0;
        while i < n
            invariant
                i <= n,
                n == repo.contents().len(),
                views_of(ids@) == pending_ids(repo.contents(), i as nat),
            decreases n - i,
        {
            let task = repo.get(i);
            if task.status == TaskStatus::Pending {
                let ghost before = ids@;
                let id = task.id.clone();
                ids.push(id);
                assert(views_of(ids@) =~= views_of(before).push(id@));
            }
            i += 1;
        }
        ids
    }

    /// Takes up the task with the id `id`: if its status is `Pending` it
    /// becomes `Processing` and the job to run comes back. A task that is
    /// missing or not pending is left alone, and so is the rest of the store.
    pub fn begin(&self, repo: &mut TaskRepository, id: &str) -> (out: Option<Job>)
        ensures
            final(repo).location() == old(repo).location(),
            match out {
                Some(job) => exists|i: int|
                    {
                        &&& first_with_id(old(repo).contents(), id@, i)
                        &&& old(repo).contents()[i].status == TaskStatus::Pending
                        &&& job@ == job_of(old(repo).contents()[i])
                        &&& final(repo).contents() == old(repo).contents().update(
                            i,
                            with_status(old(repo).contents()[i], TaskStatus::Processing),
                        )
                    },
                None => final(repo).contents() == old(repo).contents() && !stands_at(
                    old(repo).contents(),
                    id@,
                    TaskStatus::Pending,
                ),
            },
    {
        match repo.find(id) {
            Some(i) => {
                let task = repo.get(i);
                if task.status == TaskStatus::Pending {
                    let job = Job {
                        id: task.id.clone(),
                        handler: handler_for(task.task_type.as_str()),
                        file_paths: clone_strings(&task.file_paths),
                    };
                    let updated = repo.update_status(id, TaskStatus::Processing);
                    assert(updated is Ok);
                    Some(job)
                } else {
                    None
                }
            },
            None => None,
        }
    }

    /// Records how the handler of `job` ended. After a success the task
    /// becomes `Completed`, after an error `Failed`; the new status comes
    /// back. A job of an unknown type changes nothing, and neither does a job
    /// whose task is missing or no longer `Processing`: then `None` comes
    /// back.
    pub fn finish(&self, repo: &mut TaskRepository, job: &Job, succeeded: bool) -> (out: Option<
        TaskStatus,
    >)
        ensures
            final(repo).location() == old(repo).location(),
            match out {
                Some(status) => Some(status) == status_after(job.handler, succeeded) && moved(
                    old(repo).contents(),
                    final(repo).contents(),
                    job.id@,
                    TaskStatus::Processing,
                    status,
                ),
                None => final(repo).contents() == old(repo).contents() && (status_after(
                    job.handler,
                    succeeded,
                ) is None || !stands_at(old(repo).contents(), job.id@, TaskStatus::Processing)),
            },
    {
        let status = match job.handler {
            Handler::Unknown => {
                return None;
            },
            _ => if succeeded {
                TaskStatus::Completed
            } else {
                TaskStatus::Failed
            },
        };
        match repo.find(job.id.as_str()) {
            Some(i) => {
                if repo.get(i).status == TaskStatus::Processing {
                    let updated = repo.update_status(job.id.as_str(), status);
                    assert(updated is Ok);
                    Some(status)
                } else {
                    None
                }
            },
            None => None,
        }
    }
}

/// A handler whose call fails `k` times and then succeeds, with `k` below
/// the number of attempts allowed, ends in success after `k + 1` attempts
/// with the value of the attempt that succeeded, makes no further attempt,
/// and leaves its task `Completed`.
pub proof fn lemma_transient_failures_complete<T>(
    policy: crate::retry::RetryPolicy,
    results: Seq<Option<T>>,
    k: nat,
    n: nat,
    handler: Handler,
)
    requires
        handler != Handler::Unknown,
        k < policy.max_attempts,
        k < results.len(),
        forall|i: int| 0 <= i < k ==> results[i] is None,
        results[k as int] is Some,
        k < n,
    ensures
        crate::retry::run_after(policy, results, n) == (crate::retry::Run::Succeeded {
            value: results[k as int]->0,
            attempts: k + 1,
        }),
        status_after(handler, crate::retry::run_after(policy, results, n) is Succeeded) == Some(
            TaskStatus::Completed,
        ),
{
    crate::retry::lemma_transient_failures_then_success(policy, results, k, n);
}

/// A handler whose call fails on every attempt allowed leaves its task
/// `Failed`.
pub proof fn lemma_exhausted_retries_fail<T>(
    policy: crate::retry::RetryPolicy,
    results: Seq<Option<T>>,
    n: nat,
    handler: Handler,
)
    requires
        handler != Handler::Unknown,
        policy.max_attempts <= n,
        policy.max_attempts <= results.len(),
        forall|i: int| 0 <= i < policy.max_attempts ==> results[i] is None,
    ensures
        status_after(handler, crate::retry::run_after(policy, results, n) is Succeeded) == Some(
            TaskStatus::Failed,
        ),
{
    crate::retry::lemma_exhausted_after_max(policy, results, n);
}

/// The worker only moves a task forward: the change that `begin` makes, and
/// the change that `finish` makes, is a step that a task's life allows.
pub proof fn lemma_worker_moves_forward(handler: Handler, succeeded: bool)
    ensures
        may_follow(TaskStatus::Pending, TaskStatus::Processing),
        status_after(handler, succeeded) is Some ==> may_follow(
            TaskStatus::Processing,
            status_after(handler, succeeded)->0,
        ),
        !may_follow(TaskStatus::Completed, TaskStatus::Pending),
        !may_follow(TaskStatus::Failed, TaskStatus::Pending),
        !may_follow(TaskStatus::Processing, TaskStatus::Pending),
{
}

} // verus!
