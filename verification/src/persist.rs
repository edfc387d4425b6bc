//! Crash-safe replacement of a file: write a temporary file beside the
//! target, then rename it over the target.
//!
//! The library plans the steps and the caller performs them. The model below
//! says what a reader may find under the target's name when the steps are cut
//! short at any point.

use vstd::prelude::*;
use vstd::string::*;

verus! {

/// One step on the file system, as contracts see it.
pub enum FsStep {
    /// Create or overwrite `path` with `content`.
    Write { path: Seq<char>, content: Seq<char> },
    /// Rename `from` to `to` in one atomic step.
    Rename { from: Seq<char>, to: Seq<char> },
    /// Force the entries of the directory `dir` to durable storage.
    SyncDir { dir: Seq<char> },
}

/// One step on the file system.
#[derive(Debug)]
pub enum FsOp {
    /// Create or overwrite `path` with `content`.
    Write { path: String, content: String },
    /// Rename `from` to `to` in one atomic step.
    Rename { from: String, to: String },
    /// Force the entries of the directory `dir` to durable storage.
    SyncDir { dir: String },
}

impl View for FsOp {
    type V = FsStep;

    open spec fn view(&self) -> FsStep {
        match self {
            FsOp::Write { path, content } => FsStep::Write { path: path@, content: content@ },
            FsOp::Rename { from, to } => FsStep::Rename { from: from@, to: to@ },
            FsOp::SyncDir { dir } => FsStep::SyncDir { dir: dir@ },
        }
    }
}

/// The files of a directory tree: path to content.
pub type Disk = Map<Seq<char>, Seq<char>>;

/// What a reader finds under `path`.
pub open spec fn read(disk: Disk, path: Seq<char>) -> Option<Seq<char>> {
    if disk.contains_key(path) {
        Some(disk[path])
    } else {
        None
    }
}

/// The disk after `step` ran to its end. A rename of a missing file fails and
/// changes nothing.
pub open spec fn apply(disk: Disk, step: FsStep) -> Disk {
    match step {
        FsStep::Write { path, content } => disk.insert(path, content),
        FsStep::Rename { from, to } => if disk.contains_key(from) {
            disk.remove(from).insert(to, disk[from])
        } else {
            disk
        },
        FsStep::SyncDir { dir } => disk,
    }
}

/// The disk after the first `n` steps of `plan` ran to their end.
pub open spec fn run(disk: Disk, plan: Seq<FsStep>, n: nat) -> Disk
    decreases n,
{
    if n == 0 {
        disk
    } else {
        apply(run(disk, plan, (n - 1) as nat), plan[n - 1])
    }
}

/// The disk after `step` was cut short. A write leaves its file with
/// whatever had reached it, `torn`, or untouched where `torn` is `None`; a
/// rename either happened or did not, and a rename cut short did not.
pub open spec fn interrupt(disk: Disk, step: FsStep, torn: Option<Seq<char>>) -> Disk {
    match step {
        FsStep::Write { path, content } => match torn {
            Some(partial) => disk.insert(path, partial),
            None => disk,
        },
        FsStep::Rename { from, to } => disk,
        FsStep::SyncDir { dir } => disk,
    }
}

/// The disk after a crash: `done` steps of `plan` ran to their end and the
/// next one, if there is one, was cut short.
pub open spec fn after_crash(disk: Disk, plan: Seq<FsStep>, done: nat, torn: Option<Seq<char>>) -> Disk {
    let reached = run(disk, plan, done);
    if done < plan.len() {
        interrupt(reached, plan[done as int], torn)
    } else {
        reached
    }
}

/// The suffix of the temporary file.
pub open spec fn tmp_suffix() -> Seq<char> {
    seq!['.', 't', 'm', 'p']
}

/// The temporary file that stands in for `path` while it is written.
pub open spec fn tmp_of(path: Seq<char>) -> Seq<char> {
    path + tmp_suffix()
}

/// The steps that replace the content of `path` by `content`.
pub open spec fn replace_steps(path: Seq<char>, content: Seq<char>) -> Seq<FsStep> {
    seq![
        FsStep::Write { path: tmp_of(path), content },
        FsStep::Rename { from: tmp_of(path), to: path },
    ]
}

/// The steps of `plan` as contracts see them.
pub open spec fn steps_of(plan: Seq<FsOp>) -> Seq<FsStep> {
    plan.map_values(|op: FsOp| op@)
}

/// Plans the replacement of `path` by `content`: the content goes to a
/// temporary file in the same directory, which is then renamed over `path`.
pub fn replace_plan(path: &str, content: String) -> (plan: Vec<FsOp>)
    ensures
        steps_of(plan@) == replace_steps(path@, content@),
{
    proof {
        reveal_strlit(".tmp");
        assert(".tmp"@ =~= tmp_suffix());
    }
    let tmp = String::from_str(path).concat(".tmp");
    let mut plan: Vec<FsOp> = Vec::new();
    plan.push(FsOp::Write { path: tmp.clone(), content });
    plan.push(FsOp::Rename { from: tmp, to: String::from_str(path) });
    assert(steps_of(plan@) =~= replace_steps(path@, content@));
    plan
}

/// The directory that holds `path`: the path up to its last separator,
/// without that separator, and `.` where it has none.
pub open spec fn parent_of(path: Seq<char>) -> Seq<char> {
    let start = crate::text::name_start(path, path.len() as int);
    if start == 0 {
        seq!['.']
    } else if start == 1 {
        path.subrange(0, 1)
    } else {
        path.subrange(0, start - 1)
    }
}

/// The steps that give a finished capture its final name: the provisional
/// file is renamed, then the directory is forced to durable storage.
pub open spec fn finalize_steps(provisional_path: Seq<char>, output_path: Seq<char>) -> Seq<FsStep> {
    seq![
        FsStep::Rename { from: provisional_path, to: output_path },
        FsStep::SyncDir { dir: parent_of(output_path) },
    ]
}

/// The directory that holds `path`.
pub fn parent_dir(path: &str) -> (out: String)
    ensures
        out@ == parent_of(path@),
{
    let chars = crate::text::chars_of(path);
    let mut j: usize = chars.len();
    while j > 0 && !(chars[j - 1] == '/' || chars[j - 1] == '\\')
        invariant
            j <= chars.len(),
            crate::text::name_start(chars@, chars@.len() as int) == crate::text::name_start(
                chars@,
                j as int,
            ),
        decreases j,
    {
        j -= 1;
    }
    if j == 0 {
        let mut dot: Vec<char> = Vec::new();
        dot.push('.');
        assert(dot@ =~= seq!['.']);
        crate::text::string_of(&dot)
    } else if j == 1 {
        crate::text::string_of(&crate::text::slice_of(&chars, 0, 1))
    } else {
        crate::text::string_of(&crate::text::slice_of(&chars, 0, j - 1))
    }
}

/// Plans the finalization of a capture: rename the provisional file to the
/// final name, then sync the directory.
pub fn finalize_plan(provisional_path: &str, output_path: &str) -> (plan: Vec<FsOp>)
    ensures
        steps_of(plan@) == finalize_steps(provisional_path@, output_path@),
{
    let mut plan: Vec<FsOp> = Vec::new();
    plan.push(
        FsOp::Rename { from: String::from_str(provisional_path), to: String::from_str(output_path) },
    );
    plan.push(FsOp::SyncDir { dir: parent_dir(output_path) });
    assert(steps_of(plan@) =~= finalize_steps(provisional_path@, output_path@));
    plan
}

/// Replacing a file is atomic for its readers: wherever the steps of a
/// replacement are cut short, and whatever a torn write left behind, a
/// reader of `path` finds what was there before or the whole new content,
/// never anything else. Run to the end, the steps leave the new content.
pub proof fn lemma_replace_is_atomic(
    disk: Disk,
    path: Seq<char>,
    content: Seq<char>,
    done: nat,
    torn: Option<Seq<char>>,
)
    requires
        done <= replace_steps(path, content).len(),
    ensures
        read(after_crash(disk, replace_steps(path, content), done, torn), path) == read(disk, path)
            || read(after_crash(disk, replace_steps(path, content), done, torn), path) == Some(
            content,
        ),
        done == replace_steps(path, content).len() ==> read(
            after_crash(disk, replace_steps(path, content), done, torn),
            path,
        ) == Some(content),
{
    let plan = replace_steps(path, content);
    let tmp = tmp_of(path);
    assert(tmp.len() == path.len() + 4);
    assert(tmp != path);
    assert(plan.len() == 2);
    let d0 = run(disk, plan, 0);
    let d1 = run(disk, plan, 1);
    let d2 = run(disk, plan, 2);
    assert(d0 == disk);
    assert(d1 == apply(d0, plan[0]));
    assert(d2 == apply(d1, plan[1]));
    assert(d1 == disk.insert(tmp, content));
    assert(d1.contains_key(tmp));
    assert(d2 == d1.remove(tmp).insert(path, content));
}

} // verus!
