//! Crash recovery: captures that an unclean shutdown left under their
//! provisional names are given their final names and queued for processing.

use vstd::prelude::*;
use vstd::string::*;
use crate::capture::{part_suffix, provisional_of, Finalize};
use crate::task::{Task, TaskStatus, TASK_TYPE_PROCESS_SESSION};
use crate::task_store::{after_add, TaskRepository};
use crate::text::{chars_of, ends_with, has_suffix, string_of, views_of};

verus! {

/// A rename that recovery asks for, as contracts see it.
pub struct FinalizeView {
    pub provisional_path: Seq<char>,
    pub output_path: Seq<char>,
}

impl View for Finalize {
    type V = FinalizeView;

    open spec fn view(&self) -> FinalizeView {
        FinalizeView { provisional_path: self.provisional_path@, output_path: self.output_path@ }
    }
}

/// The two endings that mark an interrupted capture.
pub open spec fn is_provisional(path: Seq<char>) -> bool {
    ends_with(path, ".wav.part"@) || ends_with(path, ".flac.part"@)
}

/// The final name of the provisional file `path`: the path without its last
/// five characters, the suffix `.part`.
pub open spec fn finalized_of(path: Seq<char>) -> Seq<char> {
    path.subrange(0, path.len() - part_suffix().len())
}

/// The rename that recovers the provisional file `path`.
pub open spec fn step_of(path: Seq<char>) -> FinalizeView {
    FinalizeView { provisional_path: path, output_path: finalized_of(path) }
}

/// The renames that recover the provisional files among the first `n` paths
/// of `paths`, in the order of the paths.
pub open spec fn plan_of(paths: Seq<Seq<char>>, n: nat) -> Seq<FinalizeView>
    decreases n,
{
    if n == 0 {
        Seq::empty()
    } else if is_provisional(paths[n - 1]) {
        plan_of(paths, (n - 1) as nat).push(step_of(paths[n - 1]))
    } else {
        plan_of(paths, (n - 1) as nat)
    }
}

/// The steps of `plan` as contracts see them.
pub open spec fn steps_of(plan: Seq<Finalize>) -> Seq<FinalizeView> {
    plan.map_values(|f: Finalize| f@)
}

/// How often `path` stands among the first `n` paths of `paths`.
pub open spec fn times_listed(paths: Seq<Seq<char>>, n: nat, path: Seq<char>) -> nat
    decreases n,
{
    if n == 0 {
        0
    } else if paths[n - 1] == path {
        times_listed(paths, (n - 1) as nat, path) + 1
    } else {
        times_listed(paths, (n - 1) as nat, path)
    }
}

/// How many steps of `plan` rename the provisional file `path`.
pub open spec fn times_planned(plan: Seq<FinalizeView>, path: Seq<char>) -> nat
    decreases plan.len(),
{
    if plan.len() == 0 {
        0
    } else if plan.last().provisional_path == path {
        times_planned(plan.drop_last(), path) + 1
    } else {
        times_planned(plan.drop_last(), path)
    }
}

/// Whether `path` names an interrupted capture.
pub fn is_provisional_path(path: &str) -> (b: bool)
    ensures
        b == is_provisional(path@),
{
    let chars = chars_of(path);
    let wav = chars_of(".wav.part");
    let flac = chars_of(".flac.part");
    has_suffix(&chars, &wav) || has_suffix(&chars, &flac)
}

/// The rename that recovers `path`, or `None` if `path` does not name an
/// interrupted capture.
pub fn recover_path(path: &str) -> (out: Option<Finalize>)
    ensures
        match out {
            Some(f) => is_provisional(path@) && f@ == step_of(path@),
            None => !is_provisional(path@),
        },
{
    if !is_provisional_path(path) {
        return None;
    }
    proof {
        reveal_strlit(".wav.part");
        reveal_strlit(".flac.part");
    }
    let chars = chars_of(path);
    let mut stem: Vec<char> = Vec::new();
    let keep: usize = chars.len() - 5;
    let mut i: usize = 0;
    while i < keep
        invariant
            i <= keep,
            keep <= chars.len(),
            stem@ == chars@.subrange(0, i as int),
        decreases keep - i,
    {
        stem.push(chars[i]);
        assert(chars@.subrange(0, i + 1) =~= chars@.subrange(0, i as int).push(chars@[i as int]));
        i += 1;
    }
    Some(Finalize { provisional_path: String::from_str(path), output_path: string_of(&stem) })
}

/// Scans the paths of the capture directory and plans one rename for each
/// provisional file among them, in the order of the paths.
pub fn recovery_plan(paths: &Vec<String>) -> (plan: Vec<Finalize>)
    ensures
        steps_of(plan@) == plan_of(views_of(paths@), paths@.len()),
{
    let mut plan: Vec<Finalize> = Vec::new();
    let mut i: usize = 0;
    while i < paths.len()
        invariant
            i <= paths.len(),
            steps_of(plan@) == plan_of(views_of(paths@), i as nat),
        decreases paths.len() - i,
    {
        assert(views_of(paths@)[i as int] == paths@[i as int]@);
        match recover_path(paths[i].as_str()) {
            Some(f) => {
                let ghost before = plan@;
                let ghost step = f@;
                plan.push(f);
                assert(steps_of(plan@) =~= steps_of(before).push(step));
            },
            None => {},
        }
        i += 1;
    }
    plan
}

/// Queues a recovered capture: one pending `process_session` task whose only
/// input is the final path.
pub fn enqueue_recovered(repo: &mut TaskRepository, recovered: &Finalize) -> (task: Task)
    ensures
        task@.status == TaskStatus::Pending,
        task@.task_type == TASK_TYPE_PROCESS_SESSION@,
        task@.file_paths == seq![recovered.output_path@],
        final(repo).contents() == after_add(old(repo).contents(), task@),
        final(repo).location() == old(repo).location(),
{
    let mut inputs: Vec<String> = Vec::new();
    inputs.push(recovered.output_path.clone());
    assert(views_of(inputs@) =~= seq![recovered.output_path@]);
    repo.add(TASK_TYPE_PROCESS_SESSION, inputs)
}

/// A provisional file is the final name with `.part` behind it, so the final
/// name that recovery gives it is the name that the capture was started
/// with.
pub proof fn lemma_finalized_undoes_provisional(output_path: Seq<char>)
    ensures
        finalized_of(provisional_of(output_path)) == output_path,
{
    assert(provisional_of(output_path).subrange(0, output_path.len() as int) =~= output_path);
}

/// Each provisional file is recovered exactly as often as it is listed, and
/// nothing else is touched: the plan for a listing holds one rename to the
/// final name for each time that a provisional path stands in the listing,
/// and none for any other path. A provisional file that is listed once thus
/// gives exactly one rename, and one task.
pub proof fn lemma_one_step_per_provisional_file(paths: Seq<Seq<char>>, n: nat, path: Seq<char>)
    requires
        n <= paths.len(),
    ensures
        is_provisional(path) ==> times_planned(plan_of(paths, n), path) == times_listed(
            paths,
            n,
            path,
        ),
        !is_provisional(path) ==> times_planned(plan_of(paths, n), path) == 0,
        forall|j: int|
            0 <= j < plan_of(paths, n).len() ==> (#[trigger] plan_of(paths, n)[j]) == step_of(
                plan_of(paths, n)[j].provisional_path,
            ),
    decreases n,
{
    if n > 0 {
        lemma_one_step_per_provisional_file(paths, (n - 1) as nat, path);
        let before = plan_of(paths, (n - 1) as nat);
        if is_provisional(paths[n - 1]) {
            let after = before.push(step_of(paths[n - 1]));
            assert(after.drop_last() =~= before);
            assert(after.last() == step_of(paths[n - 1]));
        }
    }
}

} // verus!
