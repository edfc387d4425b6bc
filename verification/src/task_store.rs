//! The task store: an ordered collection of tasks that only grows, with the
//! rules for adding a task and for moving one to a new status.
//!
//! The store holds the tasks of one document. Reading the document from disk
//! and writing it back are the caller's part; `persist::replace_plan` says
//! how to write it.

use vstd::prelude::*;
use vstd::string::*;
use crate::clock::now_utc;
use crate::ids::fresh_id;
use crate::task::{task_views, Task, TaskStatus, TaskView, Timestamp};
use crate::presence::{opt_view, opt_views};
use crate::text::{str_eq, views_of};

verus! {

/// The text of a task document that holds no task.
pub const EMPTY_DOCUMENT: &'static str = "[]";

/// Why the store refused a change.
#[derive(Clone, Copy, Debug, PartialEq, Eq, Structural)]
pub enum StoreError {
    /// No task has the id that was asked for.
    NotFound,
    /// The task document cannot be read as a list of tasks.
    Corrupt,
}

/// What the caller found where the task document should be.
#[derive(Debug)]
pub enum Document {
    /// There is no document yet.
    Absent,
    /// There is one, but it is no list of tasks.
    Unreadable,
    /// The tasks that the document holds, oldest first.
    Tasks(Vec<Task>),
}

/// A task record of an older format, in which any member may be missing.
#[derive(Debug)]
pub struct LegacyTask {
    pub id: Option<String>,
    pub status: Option<String>,
    pub task_type: Option<String>,
    pub file_paths: Vec<String>,
}

/// The status of a legacy record: the one that its text names, `Pending`
/// where it names none, and nothing where the text is no status.
pub open spec fn legacy_status(text: Option<Seq<char>>) -> Option<TaskStatus> {
    match text {
        Some(name) => crate::task::status_named(name),
        None => Some(TaskStatus::Pending),
    }
}

/// `i` is the first index of `tasks` whose task has the id `id`.
pub open spec fn first_with_id(tasks: Seq<TaskView>, id: Seq<char>, i: int) -> bool {
    &&& 0 <= i < tasks.len()
    &&& tasks[i].id == id
    &&& forall|j: int| 0 <= j < i ==> (#[trigger] tasks[j]).id != id
}

/// No task of `tasks` has the id `id`.
pub open spec fn no_such_id(tasks: Seq<TaskView>, id: Seq<char>) -> bool {
    forall|j: int| 0 <= j < tasks.len() ==> (#[trigger] tasks[j]).id != id
}

/// The task at index `i` of `tasks` has the id `id`, and no other task of
/// `tasks` has it.
pub open spec fn only_at(tasks: Seq<TaskView>, id: Seq<char>, i: int) -> bool {
    &&& 0 <= i < tasks.len()
    &&& tasks[i].id == id
    &&& forall|j: int| 0 <= j < tasks.len() && j != i ==> (#[trigger] tasks[j]).id != id
}

/// `task` with its status replaced by `status`.
pub open spec fn with_status(task: TaskView, status: TaskStatus) -> TaskView {
    TaskView { status, ..task }
}

/// `after` is `before` with the status of the first task with the id `id`
/// replaced by `status`, and nothing else changed.
pub open spec fn status_set(
    before: Seq<TaskView>,
    after: Seq<TaskView>,
    id: Seq<char>,
    status: TaskStatus,
) -> bool {
    exists|i: int|
        first_with_id(before, id, i) && after == before.update(i, with_status(before[i], status))
}

/// The tasks after `add`: the new task stands last.
pub open spec fn after_add(tasks: Seq<TaskView>, task: TaskView) -> Seq<TaskView> {
    tasks.push(task)
}

/// The durable queue of tasks.
#[derive(Debug)]
pub struct TaskRepository {
    path: String,
    tasks: Vec<Task>,
}

impl TaskRepository {
    /// The tasks that the store holds, oldest first.
    pub closed spec fn contents(&self) -> Seq<TaskView> {
        task_views(self.tasks@)
    }

    /// Where the store's document lives.
    pub closed spec fn location(&self) -> Seq<char> {
        self.path@
    }

    /// An empty store for the document at `path`.
    pub fn new(path: &str) -> (repo: TaskRepository)
        ensures
            repo.location() == path@,
            repo.contents() == Seq::<TaskView>::empty(),
    {
        let repo = TaskRepository { path: String::from_str(path), tasks: Vec::new() };
        assert(repo.contents() =~= Seq::<TaskView>::empty());
        repo
    }

    /// Opens the store for the document at `path` from what was found there.
    /// A missing document gives an empty store; a document that cannot be
    /// read is an error, never an empty store.
    pub fn open(path: &str, document: Document) -> (out: Result<TaskRepository, StoreError>)
        ensures
            match document {
                Document::Absent => out is Ok && out->Ok_0.location() == path@
                    && out->Ok_0.contents() == Seq::<TaskView>::empty(),
                Document::Unreadable => out == Err::<TaskRepository, StoreError>(
                    StoreError::Corrupt,
                ),
                Document::Tasks(tasks) => out is Ok && out->Ok_0.location() == path@
                    && out->Ok_0.contents() == task_views(tasks@),
            },
    {
        match document {
            Document::Absent => Ok(TaskRepository::new(path)),
            Document::Unreadable => Err(StoreError::Corrupt),
            Document::Tasks(tasks) => Ok(TaskRepository::with_tasks(path, tasks)),
        }
    }

    /// A store for the document at `path` that holds `tasks`, as read from
    /// that document.
    pub fn with_tasks(path: &str, tasks: Vec<Task>) -> (repo: TaskRepository)
        ensures
            repo.location() == path@,
            repo.contents() == task_views(tasks@),
    {
        TaskRepository { path: String::from_str(path), tasks }
    }

    /// Where the store's document lives.
    pub fn path(&self) -> (p: &str)
        ensures
            p@ == self.location(),
    {
        self.path.as_str()
    }

    /// Saves the store's document, whose text is `document`, as a plan for
    /// the caller to carry out: the text goes to a temporary file beside the
    /// document, which is then renamed over it. Wherever the plan is cut
    /// short, and whatever a torn write left behind, a reader of the document
    /// finds what was there before or the whole new text, never a part of
    /// either; carried out to its end, the plan leaves the new text.
    pub fn save(&self, document: String) -> (plan: Vec<crate::persist::FsOp>)
        ensures
            crate::persist::steps_of(plan@) == crate::persist::replace_steps(
                self.location(),
                document@,
            ),
            forall|disk: crate::persist::Disk, done: nat, torn: Option<Seq<char>>|
                done <= crate::persist::steps_of(plan@).len() ==> {
                    let seen = crate::persist::read(
                        #[trigger] crate::persist::after_crash(
                            disk,
                            crate::persist::steps_of(plan@),
                            done,
                            torn,
                        ),
                        self.location(),
                    );
                    &&& seen == crate::persist::read(disk, self.location()) || seen == Some(
                        document@,
                    )
                    &&& done == crate::persist::steps_of(plan@).len() ==> seen == Some(document@)
                },
    {
        let plan = crate::persist::replace_plan(self.path.as_str(), document);
        proof {
            let steps = crate::persist::steps_of(plan@);
            assert forall|disk: crate::persist::Disk, done: nat, torn: Option<Seq<char>>|
                done <= steps.len() implies {
                let seen = crate::persist::read(
                    #[trigger] crate::persist::after_crash(disk, steps, done, torn),
                    self.location(),
                );
                &&& seen == crate::persist::read(disk, self.location()) || seen == Some(
                    document@,
                )
                &&& done == steps.len() ==> seen == Some(document@)
            } by {
                crate::persist::lemma_replace_is_atomic(
                    disk,
                    self.location(),
                    document@,
                    done,
                    torn,
                );
            }
        }
        plan
    }

    /// How many tasks the store holds.
    pub fn len(&self) -> (n: usize)
        ensures
            n == self.contents().len(),
    {
        self.tasks.len()
    }

    /// The task at index `i`.
    pub fn get(&self, i: usize) -> (task: &Task)
        requires
            i < self.contents().len(),
        ensures
            task@ == self.contents()[i as int],
    {
        &self.tasks[i]
    }

    /// The full current set of tasks, oldest first.
    pub fn load(&self) -> (tasks: Vec<Task>)
        ensures
            task_views(tasks@) == self.contents(),
    {
        let mut out: Vec<Task> = Vec::new();
        let mut i: usize = 0;
        while i < self.tasks.len()
            invariant
                i <= self.tasks.len(),
                task_views(out@) == task_views(self.tasks@).take(i as int),
            decreases self.tasks.len() - i,
        {
            let ghost before = out@;
            let copy = self.tasks[i].duplicate();
            out.push(copy);
            assert(task_views(out@) =~= task_views(before).push(copy@));
            assert(task_views(self.tasks@).take(i + 1) =~= task_views(self.tasks@).take(
                i as int,
            ).push(self.tasks@[i as int]@));
            i += 1;
        }
        assert(task_views(self.tasks@).take(self.tasks@.len() as int) =~= task_views(self.tasks@));
        out
    }

    /// Appends a pending task with the given id and creation time, and
    /// returns a copy of the new record.
    pub fn insert(
        &mut self,
        id: String,
        created_at: Timestamp,
        task_type: &str,
        file_paths: Vec<String>,
    ) -> (task: Task)
        ensures
            task@ == (TaskView {
                id: id@,
                created_at,
                status: TaskStatus::Pending,
                task_type: task_type@,
                file_paths: views_of(file_paths@),
            }),
            final(self).contents() == after_add(old(self).contents(), task@),
            final(self).location() == old(self).location(),
            no_such_id(old(self).contents(), id@) ==> only_at(
                final(self).contents(),
                id@,
                old(self).contents().len() as int,
            ),
    {
        let task = Task::new(id, created_at, task_type, file_paths);
        let copy = task.duplicate();
        self.tasks.push(task);
        assert(task_views(self.tasks@) =~= task_views(old(self).tasks@).push(copy@));
        copy
    }

    /// Adds a pending task of type `task_type` with the inputs `file_paths`:
    /// allocates a new id and the creation time, appends the task, and
    /// returns a copy of the new record.
    pub fn add(&mut self, task_type: &str, file_paths: Vec<String>) -> (task: Task)
        ensures
            task@.status == TaskStatus::Pending,
            task@.task_type == task_type@,
            task@.file_paths == views_of(file_paths@),
            final(self).contents() == after_add(old(self).contents(), task@),
            final(self).location() == old(self).location(),
    {
        let id = fresh_id();
        let created_at = now_utc();
        self.insert(id, created_at, task_type, file_paths)
    }

    /// The index of the first task with the id `id`.
    pub fn find(&self, id: &str) -> (out: Option<usize>)
        ensures
            match out {
                Some(i) => first_with_id(self.contents(), id@, i as int),
                None => no_such_id(self.contents(), id@),
            },
    {
        let mut i: usize = 0;
        while i < self.tasks.len()
            invariant
                i <= self.tasks.len(),
                forall|j: int| 0 <= j < i ==> (#[trigger] task_views(self.tasks@)[j]).id != id@,
            decreases self.tasks.len() - i,
        {
            if str_eq(self.tasks[i].id.as_str(), id) {
                return Some(i);
            }
            i += 1;
        }
        None
    }

    /// Sets the status of the first task with the id `id`. Fails with
    /// `NotFound`, and changes nothing, if and only if no task has that id.
    pub fn update_status(&mut self, id: &str, status: TaskStatus) -> (out: Result<(), StoreError>)
        ensures
            final(self).location() == old(self).location(),
            match out {
                Ok(()) => status_set(old(self).contents(), final(self).contents(), id@, status),
                Err(e) => e == StoreError::NotFound && no_such_id(old(self).contents(), id@)
                    && final(self).contents() == old(self).contents(),
            },
    {
        match self.find(id) {
            Some(i) => {
                let mut task = self.tasks[i].duplicate();
                task.status = status;
                self.tasks.set(i, task);
                assert(task_views(self.tasks@) =~= task_views(old(self).tasks@).update(
                    i as int,
                    with_status(task_views(old(self).tasks@)[i as int], status),
                ));
                assert(first_with_id(old(self).contents(), id@, i as int));
                Ok(())
            },
            None => Err(StoreError::NotFound),
        }
    }
}

/// Brings a legacy record up to date: a missing id becomes `fresh_id`, a
/// missing status `Pending`, a missing type `legacy`, and the creation time
/// is `now`. A record whose status is no status makes the document corrupt.
pub fn migrate(legacy: LegacyTask, fresh_id: String, now: Timestamp) -> (out: Result<
    Task,
    StoreError,
>)
    ensures
        match out {
            Ok(task) => legacy_status(crate::presence::opt_view(legacy.status)) == Some(
                task@.status,
            ) && task@ == (TaskView {
                id: match legacy.id {
                    Some(id) => id@,
                    None => fresh_id@,
                },
                created_at: now,
                status: task@.status,
                task_type: match legacy.task_type {
                    Some(t) => t@,
                    None => crate::task::TASK_TYPE_LEGACY@,
                },
                file_paths: views_of(legacy.file_paths@),
            }),
            Err(e) => e == StoreError::Corrupt && legacy_status(
                crate::presence::opt_view(legacy.status),
            ) is None,
        },
{
    let status = match &legacy.status {
        Some(name) => match TaskStatus::parse(name.as_str()) {
            Some(s) => s,
            None => {
                return Err(StoreError::Corrupt);
            },
        },
        None => TaskStatus::Pending,
    };
    let id = match legacy.id {
        Some(id) => id,
        None => fresh_id,
    };
    let task_type = match legacy.task_type {
        Some(t) => t,
        None => String::from_str(crate::task::TASK_TYPE_LEGACY),
    };
    Ok(Task { id, created_at: now, status, task_type, file_paths: legacy.file_paths })
}

/// The member of a task record that holds its id.
pub const ID_KEY: &'static str = "id";

/// The member of a task record that holds its status.
pub const STATUS_KEY: &'static str = "status";

/// The member of a task record that holds its type.
pub const TASK_TYPE_KEY: &'static str = "task_type";

/// The member of a task record that holds its inputs.
pub const FILE_PATHS_KEY: &'static str = "file_paths";

/// A legacy record as the document holds it, as contracts see it.
pub struct RawLegacyView {
    pub id: Option<Seq<char>>,
    pub status: Option<Seq<char>>,
    pub task_type: Option<Seq<char>>,
    pub file_paths: Option<Seq<Option<Seq<char>>>>,
}

/// A legacy record as the document holds it: each of the three texts where
/// the member is a string, and the list of inputs where the member is a
/// list, with each entry that is a string.
#[derive(Debug)]
pub struct RawLegacy {
    pub id: Option<String>,
    pub status: Option<String>,
    pub task_type: Option<String>,
    pub file_paths: Option<Vec<Option<String>>>,
}

impl View for RawLegacy {
    type V = RawLegacyView;

    open spec fn view(&self) -> RawLegacyView {
        RawLegacyView {
            id: opt_view(self.id),
            status: opt_view(self.status),
            task_type: opt_view(self.task_type),
            file_paths: match self.file_paths {
                Some(entries) => Some(opt_views(entries@)),
                None => None,
            },
        }
    }
}

/// The records of `records` as contracts see them.
pub open spec fn raw_views(records: Seq<RawLegacy>) -> Seq<RawLegacyView> {
    records.map_values(|r: RawLegacy| r@)
}

/// What `serde_json::from_str` reads from `text` as a JSON value, where that
/// value is a list: each entry reduced to the four members under the given
/// keys. `None` where the text is no JSON or no list.
pub uninterp spec fn legacy_records_of(
    text: Seq<char>,
    id_key: Seq<char>,
    status_key: Seq<char>,
    type_key: Seq<char>,
    paths_key: Seq<char>,
) -> Option<Seq<RawLegacyView>>;

/// Parses `text` with `serde_json::from_str` into a `serde_json::Value`,
/// takes its entries with `Value::as_array`, and picks four members from
/// each entry by indexing: the three texts with `Value::as_str`, the inputs
/// with `Value::as_array` and `Value::as_str` on each. The contract gives
/// the result its name and claims no more.
#[verifier::external_body]
fn read_legacy_records(
    text: &str,
    id_key: &str,
    status_key: &str,
    type_key: &str,
    paths_key: &str,
) -> (out: Option<Vec<RawLegacy>>)
    ensures
        legacy_records_of(text@, id_key@, status_key@, type_key@, paths_key@) == match out {
            Some(records) => Some(raw_views(records@)),
            None => None,
        },
{
    let parsed: serde_json::Value = serde_json::from_str(text).ok()?;
    let text_of = |v: &serde_json::Value| v.as_str().map(str::to_string);
    let pick = |item: &serde_json::Value| RawLegacy {
        id: text_of(&item[id_key]),
        status: text_of(&item[status_key]),
        task_type: text_of(&item[type_key]),
        file_paths: item[paths_key].as_array().map(|a| a.iter().map(text_of).collect()),
    };
    Some(parsed.as_array()?.iter().map(pick).collect())
}

/// The legacy records that the document `text` holds, by the four members
/// of the document's format.
pub open spec fn legacy_document(text: Seq<char>) -> Option<Seq<RawLegacyView>> {
    legacy_records_of(text, ID_KEY@, STATUS_KEY@, TASK_TYPE_KEY@, FILE_PATHS_KEY@)
}

/// The inputs among the first `n` entries of a list of inputs: the entries
/// that are strings, in order.
pub open spec fn kept_paths(entries: Seq<Option<Seq<char>>>, n: nat) -> Seq<Seq<char>>
    decreases n,
{
    if n == 0 {
        Seq::empty()
    } else {
        match entries[n - 1] {
            Some(path) => kept_paths(entries, (n - 1) as nat).push(path),
            None => kept_paths(entries, (n - 1) as nat),
        }
    }
}

/// The inputs of a legacy record: the strings of its list, and none where it
/// has no list.
pub open spec fn legacy_paths(raw: Option<Seq<Option<Seq<char>>>>) -> Seq<Seq<char>> {
    match raw {
        Some(entries) => kept_paths(entries, entries.len()),
        None => Seq::empty(),
    }
}

/// `task` is what the legacy record `raw` becomes: its status is the one
/// that the record names, or `Pending`; its id is the record's where it has
/// one; its type is the record's, or `legacy`; its inputs are the strings of
/// the record's list.
pub open spec fn migrated(raw: RawLegacyView, task: TaskView) -> bool {
    &&& legacy_status(raw.status) == Some(task.status)
    &&& raw.id is Some ==> task.id == raw.id->0
    &&& task.task_type == match raw.task_type {
        Some(t) => t,
        None => crate::task::TASK_TYPE_LEGACY@,
    }
    &&& task.file_paths == legacy_paths(raw.file_paths)
}

impl RawLegacy {
    /// The record with its inputs reduced to the strings among them.
    pub fn to_legacy(&self) -> (legacy: LegacyTask)
        ensures
            opt_view(legacy.id) == self@.id,
            opt_view(legacy.status) == self@.status,
            opt_view(legacy.task_type) == self@.task_type,
            views_of(legacy.file_paths@) == legacy_paths(self@.file_paths),
    {
        let mut file_paths: Vec<String> = Vec::new();
        match &self.file_paths {
            Some(entries) => {
                let mut i: usize = 0;
                while i < entries.len()
                    invariant
                        i <= entries.len(),
                        views_of(file_paths@) == kept_paths(opt_views(entries@), i as nat),
                    decreases entries.len() - i,
                {
                    assert(opt_views(entries@)[i as int] == opt_view(entries@[i as int]));
                    match &entries[i] {
                        Some(path) => {
                            let ghost before = file_paths@;
                            file_paths.push(path.clone());
                            assert(views_of(file_paths@) =~= views_of(before).push(path@));
                        },
                        None => {},
                    }
                    i += 1;
                }
                assert(opt_views(entries@).len() == entries@.len());
            },
            None => {
                assert(views_of(file_paths@) =~= Seq::<Seq<char>>::empty());
            },
        }
        LegacyTask {
            id: clone_text(&self.id),
            status: clone_text(&self.status),
            task_type: clone_text(&self.task_type),
            file_paths,
        }
    }
}

/// A copy of an optional text.
pub fn clone_text(text: &Option<String>) -> (out: Option<String>)
    ensures
        opt_view(out) == opt_view(*text),
{
    match text {
        Some(t) => Some(t.clone()),
        None => None,
    }
}

/// Some record of `records` has a status that is no status.
pub open spec fn some_status_unknown(records: Seq<RawLegacyView>) -> bool {
    exists|i: int| 0 <= i < records.len() && legacy_status((#[trigger] records[i]).status) is None
}

/// Reads a document of the older format: a list of records in which any
/// member may be missing. Each record becomes a task by `migrate`, with a
/// fresh id where it has none and this moment as its creation time. A text
/// that is no JSON list, and a record whose status is no status, make the
/// document corrupt.
pub fn read_legacy_document(text: &str) -> (out: Result<Vec<Task>, StoreError>)
    ensures
        match out {
            Ok(tasks) => {
                &&& legacy_document(text@) is Some
                &&& tasks@.len() == legacy_document(text@)->0.len()
                &&& forall|i: int|
                    0 <= i < tasks@.len() ==> migrated(
                        legacy_document(text@)->0[i],
                        #[trigger] task_views(tasks@)[i],
                    )
            },
            Err(e) => e == StoreError::Corrupt && (legacy_document(text@) is None
                || some_status_unknown(legacy_document(text@)->0)),
        },
{
    let records = match read_legacy_records(text, ID_KEY, STATUS_KEY, TASK_TYPE_KEY, FILE_PATHS_KEY) {
        Some(records) => records,
        None => {
            return Err(StoreError::Corrupt);
        },
    };
    let mut tasks: Vec<Task> = Vec::new();
    let mut i: usize = 0;
    while i < records.len()
        invariant
            i <= records.len(),
            legacy_document(text@) == Some(raw_views(records@)),
            tasks@.len() == i,
            forall|k: int|
                0 <= k < i ==> migrated(raw_views(records@)[k], #[trigger] task_views(tasks@)[k]),
        decreases records.len() - i,
    {
        let raw = &records[i];
        assert(raw_views(records@)[i as int] == raw@);
        let fresh = match &raw.id {
            Some(_) => String::new(),
            None => fresh_id(),
        };
        let ghost before = tasks@;
        match migrate(raw.to_legacy(), fresh, now_utc()) {
            Ok(task) => {
                let ghost view = task@;
                tasks.push(task);
                assert(task_views(tasks@) =~= task_views(before).push(view));
                assert(migrated(raw@, view));
            },
            Err(_) => {
                assert(legacy_status(raw_views(records@)[i as int].status) is None);
                return Err(StoreError::Corrupt);
            },
        }
        i += 1;
    }
    assert(raw_views(records@).len() == records@.len());
    Ok(tasks)
}

/// Adding a task and loading the store gives the task back with the fields
/// it was added with: the last task of the store after `add` is the task
/// that was added, and every task that was there before is still there,
/// unchanged and in its place. Where the id of the task is new to the store,
/// the store then holds exactly one task with that id.
pub proof fn lemma_add_then_load(tasks: Seq<TaskView>, task: TaskView)
    ensures
        after_add(tasks, task).len() == tasks.len() + 1,
        after_add(tasks, task).last() == task,
        forall|i: int| 0 <= i < tasks.len() ==> after_add(tasks, task)[i] == tasks[i],
        no_such_id(tasks, task.id) ==> only_at(
            after_add(tasks, task),
            task.id,
            tasks.len() as int,
        ),
{
}

} // verus!
