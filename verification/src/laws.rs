//! What holds of every workflow, proved from the engine's transitions.

use vstd::prelude::*;
use crate::command::{CommandView, ExitStatus};
use crate::engine::{exit_code, select, unmounts, ActionView, EngineView, Event, JobView, Stage};
use crate::entry::{create_mount_command, create_snapshot_command, snapshot_device_path};
use crate::error::Error;
use crate::lvm::remove_command;
use crate::mount::{is_mount_point, resolve_target, sync_command, unmount_command, FileMeta};
use crate::path::parent_of;
use crate::plan::{lemma_plan_order, remount_plan, run_plan, setup_plan, teardown_plan, Step};

verus! {

/// Where no step was skipped, the commands handed out are the commands of
/// the steps decided, one for one.
pub proof fn lemma_select_all(commands: Seq<CommandView>, flags: Seq<bool>)
    requires
        flags.len() <= commands.len(),
        forall|i: int| 0 <= i < flags.len() ==> flags[i],
    ensures
        select(commands, flags) == commands.take(flags.len() as int),
    decreases flags.len(),
{
    if flags.len() > 0 {
        lemma_select_all(commands, flags.drop_last());
        assert(commands.take(flags.len() as int) =~= commands.take(flags.len() - 1).push(
            commands[flags.len() - 1],
        ));
    } else {
        assert(commands.take(0) =~= Seq::<CommandView>::empty());
    }
}

/// Where every step was skipped, no command was handed out.
pub proof fn lemma_select_none(commands: Seq<CommandView>, flags: Seq<bool>)
    requires
        forall|i: int| 0 <= i < flags.len() ==> !flags[i],
    ensures
        select(commands, flags).len() == 0,
    decreases flags.len(),
{
    if flags.len() > 0 {
        lemma_select_none(commands, flags.drop_last());
    }
}

/// The commands handed out never outnumber the steps decided.
pub proof fn lemma_select_len(commands: Seq<CommandView>, flags: Seq<bool>)
    ensures
        select(commands, flags).len() <= flags.len(),
    decreases flags.len(),
{
    if flags.len() > 0 {
        lemma_select_len(commands, flags.drop_last());
    }
}

/// Commands are handed out in plan order: in every state that a workflow
/// reaches, the commands handed out so far are the commands of the steps
/// that were decided and not skipped, in the order of the plan, each once.
pub proof fn lemma_commands_follow_plan(state: EngineView)
    requires
        state.valid(),
    ensures
        state.done.len() <= state.job.plan.len(),
        state.issued == select(state.job.plan_commands(), state.done),
        state.issued.len() <= state.done.len(),
{
    lemma_select_len(state.job.plan_commands(), state.done);
}

/// Only a reported failure counts as a fault, and only a fault, or the end
/// of the plan, ends a workflow.
pub proof fn lemma_only_failures_count(state: EngineView, event: Event)
    requires
        state.valid(),
    ensures
        state.react(event).faults == state.faults || state.react(event).faults == state.faults + 1,
        state.react(event).faults != state.faults ==> (event matches Event::Stat(Err(_)))
            || (event matches Event::Checked(Err(_))) || (event matches Event::Ran(Err(_))
            && state.stage == Stage::Running),
        state.react(event).stage == Stage::Finished && state.stage != Stage::Finished ==> state.react(
            event,
        ).faults > state.faults || state.react(event).position == state.job.plan.len(),
{
}

/// A workflow that ends without a fault has decided every step of its plan
/// and reports success. If nothing was skipped on the way, it has handed
/// out the command of every step, in plan order.
pub proof fn lemma_unhindered_workflow(state: EngineView)
    requires
        state.valid(),
        state.stage == Stage::Finished,
        state.faults == 0,
    ensures
        state.done.len() == state.job.plan.len(),
        state.verdict is Ok,
        (forall|i: int| 0 <= i < state.done.len() ==> state.done[i]) ==> state.issued
            == state.job.plan_commands(),
{
    if forall|i: int| 0 <= i < state.done.len() ==> state.done[i] {
        lemma_select_all(state.job.plan_commands(), state.done);
        assert(state.job.plan_commands().take(state.done.len() as int) =~= state.job.plan_commands());
    }
}

/// Setting up a tree in which no mount asks to be skipped, with every
/// command reported as successful, hands out one command for every snapshot
/// and one for every mount, snapshots first, each kind in list order, and
/// reports success. This is what a preview of a setup does.
pub proof fn lemma_setup_hands_out_every_command(state: EngineView)
    requires
        state.valid(),
        state.stage == Stage::Finished,
        state.faults == 0,
        state.job.plan == setup_plan(state.job.config.snapshots@.len(), state.job.config.mounts@.len()),
        forall|i: int| 0 <= i < state.job.config.mounts@.len() ==> !state.job.config.mounts@[i].if_exists,
    ensures
        state.issued == state.job.plan_commands(),
        state.issued.len() == state.job.config.snapshots@.len() + state.job.config.mounts@.len(),
        state.verdict is Ok,
{
    let snapshots = state.job.config.snapshots@.len();
    let mounts = state.job.config.mounts@.len();
    lemma_unhindered_workflow(state);
    assert forall|i: int| 0 <= i < state.done.len() implies state.done[i] by {
        lemma_plan_order(snapshots, mounts, i);
        assert(state.job.unconditional(state.job.plan[i]));
    }
}

/// Tearing down a tree of which nothing is left is silent: where every
/// step found nothing to undo and no failure was reported, no command was
/// handed out, not even a flush, and the workflow reports success. So a
/// teardown can be repeated, and can follow a setup that stopped halfway.
pub proof fn lemma_idle_teardown_is_silent(state: EngineView)
    requires
        state.valid(),
        state.stage == Stage::Finished,
        state.faults == 0,
        forall|i: int| 0 <= i < state.done.len() ==> !state.done[i],
    ensures
        state.issued.len() == 0,
        state.flushes == 0,
        state.done.len() == state.job.plan.len(),
        state.verdict is Ok,
{
    lemma_select_none(state.job.plan_commands(), state.done);
    lemma_unmounts_bound(state.job.plan, state.done);
}

/// The history is a true record: an event either hands out no command of a
/// step, or it hands out exactly one, which is then the pending action and
/// the last entry of the record. A flush is handed out exactly when the
/// count of flushes goes up.
pub proof fn lemma_history_records_actions(state: EngineView, event: Event)
    requires
        state.valid(),
    ensures
        ({
            let after = state.react(event);
            let fresh = after.stage != state.stage || after.position != state.position;
            &&& after.issued == state.issued || (after.issued.drop_last() == state.issued
                && after.issued.len() == state.issued.len() + 1 && (after.pending()
                == ActionView::CheckRun(after.issued.last()) || after.pending()
                == ActionView::Run(after.issued.last())))
            &&& fresh && (after.stage == Stage::Checking || after.stage == Stage::Running)
                ==> after.issued.len() == state.issued.len() + 1
            &&& fresh && after.stage == Stage::Flushing <==> after.flushes == state.flushes + 1
            &&& after.flushes == state.flushes || after.flushes == state.flushes + 1
        }),
{
    let after = state.react(event);
    let command = state.job.command_of(state.step());
    assert(state.issued.push(command).drop_last() =~= state.issued);
    if state.position + 1 < state.job.plan.len() {
        let next = state.job.command_of(state.job.plan[state.position + 1]);
        assert(state.issued.push(next).drop_last() =~= state.issued);
    }
}

/// A teardown step asks before it acts, and does nothing where the answer
/// is that its path does not exist: the step is decided as skipped, no
/// fault is counted, and the workflow goes on with the next step.
pub proof fn lemma_absent_path_is_left_alone(state: EngineView)
    requires
        state.valid(),
        state.stage == Stage::Probing,
    ensures
        state.react(Event::Probed(false)).done.len() > state.position,
        !state.react(Event::Probed(false)).done[state.position],
        state.react(Event::Probed(false)).position == state.position + 1,
        state.react(Event::Probed(false)).faults == state.faults,
        state.react(Event::Probed(false)).verdict == state.verdict,
{
}

/// A mount that asks to be skipped when its source is missing, and whose
/// source is missing, hands out no command and is no failure.
pub proof fn lemma_missing_source_is_skipped(state: EngineView, entry: usize)
    requires
        state.valid(),
        state.stage == Stage::Probing,
        state.step() == Step::CreateMount(entry),
    ensures
        state.job.config.mounts@[entry as int].if_exists,
        state.pending() == ActionView::Probe(state.job.config.mounts@[entry as int].source@),
        state.react(Event::Probed(false)).position == state.position + 1,
        !state.react(Event::Probed(false)).done[state.position],
        state.react(Event::Probed(false)).faults == state.faults,
        state.react(Event::Probed(false)).verdict == state.verdict,
{
}

/// A target that is a symbolic link, that has no parent directory, or that
/// lies on the device of its parent directory is not unmounted: the step
/// is decided as skipped and no fault is counted.
pub proof fn lemma_unmounted_target_is_left_alone(state: EngineView, meta: FileMeta)
    requires
        state.valid(),
        match state.stage {
            Stage::Stat => meta.is_symlink || parent_of(
                state.job.probe_path(state.step()),
            ) is None,
            Stage::ParentStat(own) => !is_mount_point(own, Some(meta)),
            _ => false,
        },
    ensures
        state.react(Event::Stat(Ok(meta))) == state.skip(),
        !state.skip().done[state.position],
        state.skip().position == state.position + 1,
        state.skip().faults == state.faults,
{
}

/// The root directory is never unmounted, whatever its metadata says.
pub proof fn lemma_root_is_never_unmounted(state: EngineView, meta: FileMeta)
    requires
        state.valid(),
        state.stage == Stage::Stat,
        state.job.probe_path(state.step()) == "/"@,
    ensures
        state.react(Event::Stat(Ok(meta))) == state.skip(),
        !state.skip().done[state.position],
        state.skip().faults == state.faults,
{
}

/// A target that lies on another device than its parent directory is
/// unmounted: first its pending writes are flushed, then, however the flush
/// ended, the unmount command is handed out. A flush that fails counts as no
/// fault.
pub proof fn lemma_mounted_target_is_unmounted(
    state: EngineView,
    own: FileMeta,
    up: FileMeta,
    flushed: Result<ExitStatus, Error>,
)
    requires
        state.valid(),
        state.stage == Stage::ParentStat(own),
        is_mount_point(own, Some(up)),
    ensures
        state.react(Event::Stat(Ok(up))).pending() == ActionView::Run(
            sync_command(state.job.probe_path(state.step())),
        ),
        state.react(Event::Stat(Ok(up))).react(Event::Ran(flushed)).pending()
            == ActionView::CheckRun(
            unmount_command(state.job.probe_path(state.step())),
        ),
        state.react(Event::Stat(Ok(up))).react(Event::Ran(flushed)).faults == state.faults,
        state.react(Event::Stat(Ok(up))).react(Event::Ran(flushed)).verdict == state.verdict,
{
}

/// After the workload, a run goes through exactly the steps of a teardown.
pub proof fn lemma_run_ends_with_teardown(unmount_before: bool, snapshots: nat, mounts: nat)
    ensures
        ({
            let plan = run_plan(unmount_before, snapshots, mounts);
            let before = remount_plan(unmount_before, snapshots, mounts).len() as int;
            &&& plan[before] == Step::RunProgram
            &&& plan.subrange(before + 1, plan.len() as int) == teardown_plan(snapshots, mounts)
            &&& plan.subrange(0, before) == remount_plan(unmount_before, snapshots, mounts)
        }),
{
    let plan = run_plan(unmount_before, snapshots, mounts);
    let before = remount_plan(unmount_before, snapshots, mounts).len() as int;
    assert(plan.subrange(before + 1, plan.len() as int) =~= teardown_plan(snapshots, mounts));
    assert(plan.subrange(0, before) =~= remount_plan(unmount_before, snapshots, mounts));
}

/// Whatever becomes of the workload, the workflow goes on with the step
/// after it: no outcome of the workload ends the workflow before the
/// teardown. The exit code of the workload becomes the verdict.
pub proof fn lemma_workload_never_stops_teardown(state: EngineView, ended: Result<ExitStatus, Error>)
    requires
        state.valid(),
        state.stage == Stage::Running,
    ensures
        state.react(Event::Ran(ended)).position == state.position + 1,
        state.react(Event::Ran(ended)).job == state.job,
        state.react(Event::Ran(ended)).stage == Stage::Finished ==> state.position + 1
            == state.job.plan.len(),
        ended matches Ok(status) ==> state.react(Event::Ran(ended)).verdict == Ok::<i32, Error>(
            exit_code(status),
        ),
        ended matches Err(error) ==> state.react(Event::Ran(ended)).verdict == Err::<i32, Error>(error),
{
}

/// A run that ends without a fault has decided every step of its plan, the
/// teardown included, and reports the exit code of its workload: the code
/// the workload ended with, or 1 where it was terminated without one.
pub proof fn lemma_run_reports_exit_code(state: EngineView, status: ExitStatus)
    requires
        state.valid(),
        state.stage == Stage::Finished,
        state.faults == 0,
        state.exited == Some(status),
    ensures
        state.done.len() == state.job.plan.len(),
        state.verdict == Ok::<i32, Error>(exit_code(status)),
        status.code matches Some(code) ==> state.verdict == Ok::<i32, Error>(code),
{
}

/// A flush is handed out only before an unmount: a workflow whose plan
/// unmounts nothing hands out no flush.
pub proof fn lemma_flushes_need_unmounts(state: EngineView)
    requires
        state.valid(),
        forall|k: int| 0 <= k < state.job.plan.len() ==> !(#[trigger] state.job.plan[k] is RemoveMount),
    ensures
        state.flushes == 0,
{
    lemma_unmounts_bound(state.job.plan, state.done);
    if state.stage == Stage::Flushing {
        assert(state.job.plan[state.position] is RemoveMount);
    }
}

/// The unmounts among the steps whose flag is set are at most as many as the
/// flags: none where no flag is set, and none where the plan has no unmount.
pub proof fn lemma_unmounts_bound(plan: Seq<Step>, flags: Seq<bool>)
    requires
        flags.len() <= plan.len(),
    ensures
        unmounts(plan, flags) <= flags.len(),
        (forall|i: int| 0 <= i < flags.len() ==> !flags[i]) ==> unmounts(plan, flags) == 0,
        (forall|k: int| 0 <= k < plan.len() ==> !(#[trigger] plan[k] is RemoveMount)) ==> unmounts(
            plan,
            flags,
        ) == 0,
    decreases flags.len(),
{
    if flags.len() > 0 {
        lemma_unmounts_bound(plan, flags.drop_last());
    }
}

/// A failure ends the workflow at once: the step that failed is the last,
/// nothing that was set up before is undone, and the failure is what the
/// workflow reports.
pub proof fn lemma_failure_ends_workflow(state: EngineView, error: Error)
    requires
        state.valid(),
        state.stage == Stage::Checking || state.stage == Stage::Stat || state.stage is ParentStat,
    ensures
        ({
            let event = if state.stage == Stage::Checking {
                Event::Checked(Err(error))
            } else {
                Event::Stat(Err(error))
            };
            let after = state.react(event);
            &&& after.stage == Stage::Finished
            &&& after.verdict == Err::<i32, Error>(error)
            &&& after.position == state.position
            &&& after.issued == state.issued
            &&& after.flushes == state.flushes
            &&& after.pending() == ActionView::Finish
        }),
{
}

/// A workflow that is over stays as it is, whatever it is told.
pub proof fn lemma_finished_is_final(state: EngineView, event: Event)
    requires
        state.stage == Stage::Finished,
    ensures
        state.react(event) == state,
{
}

/// The commands of a setup are the creation of every snapshot, in list
/// order, followed by the mounting of every mount, in list order.
pub proof fn lemma_setup_commands(job: JobView, i: int)
    requires
        job.plan == setup_plan(job.config.snapshots@.len(), job.config.mounts@.len()),
        0 <= i < job.plan.len(),
    ensures
        job.plan.len() == job.config.snapshots@.len() + job.config.mounts@.len(),
        job.plan_commands().len() == job.plan.len(),
        i < job.config.snapshots@.len() ==> job.plan_commands()[i] == create_snapshot_command(
            job.config.snapshots@[i],
        ),
        i >= job.config.snapshots@.len() ==> job.plan_commands()[i] == create_mount_command(
            job.toplevel,
            job.config.mounts@[i - job.config.snapshots@.len()],
        ),
{
    let snapshots = job.config.snapshots@.len();
    let mounts = job.config.mounts@.len();
    assert(snapshots == job.config.snapshots.len() && mounts == job.config.mounts.len());
    lemma_plan_order(snapshots, mounts, i);
    if i < snapshots {
        assert(job.plan[i] == Step::CreateSnapshot(i as usize));
        assert(i as usize as int == i);
    } else {
        assert(job.plan[i] == Step::CreateMount((i - snapshots) as usize));
        assert((i - snapshots) as usize as int == i - snapshots);
    }
}

/// The commands of a teardown are the unmounting of every mount, in reverse
/// list order, followed by the removal of every snapshot, in reverse list
/// order.
pub proof fn lemma_teardown_commands(job: JobView, i: int)
    requires
        job.plan == teardown_plan(job.config.snapshots@.len(), job.config.mounts@.len()),
        0 <= i < job.plan.len(),
    ensures
        job.plan.len() == job.config.snapshots@.len() + job.config.mounts@.len(),
        job.plan_commands().len() == job.plan.len(),
        i < job.config.mounts@.len() ==> job.plan_commands()[i] == unmount_command(
            resolve_target(
                job.toplevel,
                job.config.mounts@[job.config.mounts@.len() - 1 - i].logical_target(),
            ),
        ),
        i >= job.config.mounts@.len() ==> job.plan_commands()[i] == remove_command(
            snapshot_device_path(job.config.snapshots@[job.plan.len() - 1 - i]),
        ),
{
    let snapshots = job.config.snapshots@.len();
    let mounts = job.config.mounts@.len();
    assert(snapshots == job.config.snapshots.len() && mounts == job.config.mounts.len());
    lemma_plan_order(snapshots, mounts, i);
    if i < mounts {
        assert(job.plan[i] == Step::RemoveMount((mounts - 1 - i) as usize));
        assert((mounts - 1 - i) as usize as int == mounts - 1 - i);
    } else {
        assert(job.plan[i] == Step::RemoveSnapshot((snapshots + mounts - 1 - i) as usize));
        assert((snapshots + mounts - 1 - i) as usize as int == snapshots + mounts - 1 - i);
    }
}

} // verus!
