//! Workflows against a model of the system.
//!
//! The engine never sees the system, only answers. Here the answers come
//! from a model: a set of paths at which something exists and a set of
//! paths that are mount points, on which a command that the engine hands
//! out for checking has the effect that its tool is meant to have. Against
//! this model whole workflows can be followed from their first action to
//! their last: a setup hands out its commands in list order, a preview
//! changes nothing, a run tears down whatever its workload ends with, and a
//! teardown leaves nothing that a second teardown would undo.

use vstd::prelude::*;
use crate::command::{CommandView, ExitStatus};
use crate::config::Config;
use crate::engine::{
    exit_code, lemma_react_valid, lemma_start_valid, lemma_workflow_plans_in_range, run_job, setup_job,
    teardown_job, EngineView, Event, JobView, Stage,
};
use crate::entry::snapshot_device_path;
use crate::error::Error;
use crate::laws::{lemma_flushes_need_unmounts, lemma_setup_hands_out_every_command};
use crate::mount::FileMeta;
use crate::path::parent_of;
use crate::plan::{lemma_plan_order, step_in_range, teardown_plan, Step};

verus! {

/// What the model knows of the system.
pub struct World {
    /// The paths at which something exists.
    pub present: Set<Seq<char>>,
    /// The paths that are mount points.
    pub mounted: Set<Seq<char>>,
}

/// The metadata that the model reports for `path`: never a symbolic link,
/// and on another device than any parent directory exactly when `path` is a
/// mount point.
pub open spec fn meta_of(world: World, path: Seq<char>) -> FileMeta {
    FileMeta {
        is_symlink: false,
        device: if world.mounted.contains(path) {
            1u64
        } else {
            0u64
        },
    }
}

/// The answer of the model to the pending action of `state`. Every command
/// succeeds, the workload ends with `ended`, and all metadata can be read.
/// A target reports device 1 where it is a mount point and device 0 where it
/// is not, and every parent directory reports device 0: the two differ
/// exactly for a mount point.
pub open spec fn answer(world: World, state: EngineView, ended: ExitStatus) -> Event {
    let path = state.job.probe_path(state.step());
    match state.stage {
        Stage::Probing => Event::Probed(world.present.contains(path)),
        Stage::Stat => Event::Stat(Ok(meta_of(world, path))),
        Stage::ParentStat(_) => Event::Stat(Ok(FileMeta { is_symlink: false, device: 0u64 })),
        Stage::Flushing => Event::Ran(Ok(ExitStatus { code: Some(0i32) })),
        Stage::Checking => Event::Checked(Ok(())),
        Stage::Running => Event::Ran(Ok(ended)),
        Stage::Finished => Event::Probed(false),
    }
}

/// The model after the pending action of `state` was carried out: a command
/// handed out for checking creates or removes what it names, and nothing
/// else changes anything.
pub open spec fn effect(world: World, state: EngineView) -> World {
    if state.stage == Stage::Checking {
        match state.step() {
            Step::CreateSnapshot(i) => World {
                present: world.present.insert(snapshot_device_path(state.job.config.snapshots@[i as int])),
                ..world
            },
            Step::CreateMount(i) => World {
                mounted: world.mounted.insert(state.job.target_of(i as int)),
                ..world
            },
            Step::RemoveMount(i) => World {
                mounted: world.mounted.remove(state.job.target_of(i as int)),
                ..world
            },
            Step::RemoveSnapshot(i) => World {
                present: world.present.remove(snapshot_device_path(state.job.config.snapshots@[i as int])),
                ..world
            },
            Step::RunProgram => world,
        }
    } else {
        world
    }
}

/// The model and the workflow after at most `fuel` actions, or at the end
/// of the workflow if that comes earlier. With `applied` the commands are
/// executed and have their effect on the model; without, they are only
/// previewed, and the model stays as it is.
pub open spec fn run(world: World, state: EngineView, ended: ExitStatus, applied: bool, fuel: nat) -> (
    World,
    EngineView,
)
    decreases fuel,
{
    if fuel == 0 || state.stage == Stage::Finished {
        (world, state)
    } else {
        run(
            if applied {
                effect(world, state)
            } else {
                world
            },
            state.react(answer(world, state, ended)),
            ended,
            applied,
            (fuel - 1) as nat,
        )
    }
}

/// Whether a teardown step finds something to undo: a target that exists,
/// is a mount point and has a parent directory, or a snapshot whose device
/// exists.
pub open spec fn undoable(world: World, job: JobView, step: Step) -> bool {
    match step {
        Step::RemoveMount(i) => {
            let target = job.target_of(i as int);
            world.present.contains(target) && world.mounted.contains(target) && parent_of(target) is Some
        },
        Step::RemoveSnapshot(i) => world.present.contains(
            snapshot_device_path(job.config.snapshots@[i as int]),
        ),
        _ => true,
    }
}

/// Whether no step of the plan launches a workload.
pub open spec fn without_workload(job: JobView) -> bool {
    forall|k: int| 0 <= k < job.plan.len() ==> #[trigger] job.plan[k] != Step::RunProgram
}

/// Whether every step from place `from` of the plan on is a teardown step.
pub open spec fn undoing(job: JobView, from: int) -> bool {
    forall|k: int|
        from <= k < job.plan.len() ==> (#[trigger] job.plan[k]) is RemoveMount || job.plan[k]
            is RemoveSnapshot
}

/// Whether no step from place `from` up to, but without, place `upto` of
/// the plan finds anything to undo.
pub open spec fn torn_down(world: World, job: JobView, from: int, upto: int) -> bool {
    forall|k: int|
        from <= k < upto && 0 <= k < job.plan.len() ==> !undoable(world, job, #[trigger] job.plan[k])
}

/// What holds while a workflow that ends with a teardown, from place
/// `from` of its plan on, runs against the model: nothing failed, every
/// teardown step from `from` on that is decided has nothing left to undo,
/// what the engine was told so far is what the model holds, and the exit
/// status of a workload just before `from` is recorded.
pub open spec fn undoing_state(world: World, state: EngineView, ended: ExitStatus, from: int) -> bool {
    let path = state.job.probe_path(state.step());
    &&& state.valid()
    &&& 0 <= from
    &&& undoing(state.job, from)
    &&& state.faults == 0
    &&& torn_down(world, state.job, from, state.position)
    &&& (0 < from <= state.position && state.job.plan[from - 1] == Step::RunProgram ==> state.exited
        == Some(ended))
    &&& (without_workload(state.job) ==> state.exited is None)
    &&& match state.stage {
        Stage::Stat => world.present.contains(path),
        Stage::ParentStat(own) => world.present.contains(path) && parent_of(path) is Some && own
            == meta_of(world, path),
        Stage::Finished => state.position == state.job.plan.len(),
        _ => true,
    }
}

/// What holds while a teardown runs against a model in which nothing is
/// left to undo: no command of any kind was handed out.
pub open spec fn silent_state(world: World, state: EngineView, ended: ExitStatus) -> bool {
    &&& undoing_state(world, state, ended, 0)
    &&& torn_down(world, state.job, 0, state.job.plan.len() as int)
    &&& state.issued.len() == 0
    &&& state.flushes == 0
    &&& state.stage != Stage::Flushing
    &&& state.stage != Stage::Checking
}

/// How many more actions a workflow can take at most.
pub open spec fn distance(state: EngineView) -> int {
    match state.stage {
        Stage::Finished => 0,
        Stage::Stat => 5 * (state.job.plan.len() - state.position) - 1,
        Stage::ParentStat(_) => 5 * (state.job.plan.len() - state.position) - 2,
        Stage::Flushing => 5 * (state.job.plan.len() - state.position) - 3,
        Stage::Checking => 5 * (state.job.plan.len() - state.position) - 4,
        _ => 5 * (state.job.plan.len() - state.position),
    }
}

/// How many more actions a silent teardown can take at most.
pub open spec fn silent_distance(state: EngineView) -> int {
    match state.stage {
        Stage::Finished => 0,
        Stage::Stat => 3 * (state.job.plan.len() - state.position) - 1,
        Stage::ParentStat(_) => 3 * (state.job.plan.len() - state.position) - 2,
        _ => 3 * (state.job.plan.len() - state.position),
    }
}

/// One action of a workflow against the model keeps what holds of it and
/// brings the end of the workflow nearer.
pub proof fn lemma_undoing_step(world: World, state: EngineView, ended: ExitStatus, from: int)
    requires
        undoing_state(world, state, ended, from),
        state.stage != Stage::Finished,
    ensures
        undoing_state(effect(world, state), state.react(answer(world, state, ended)), ended, from),
        state.react(answer(world, state, ended)).job == state.job,
        distance(state.react(answer(world, state, ended))) < distance(state),
        distance(state) >= 0,
{
    let event = answer(world, state, ended);
    let after = state.react(event);
    let world_after = effect(world, state);
    lemma_react_valid(state, event);
    if state.position >= from {
        assert(state.job.plan[state.position] is RemoveMount || state.job.plan[state.position]
            is RemoveSnapshot);
    }
    assert forall|k: int|
        from <= k < after.position && 0 <= k < after.job.plan.len() implies !undoable(
        world_after,
        after.job,
        #[trigger] after.job.plan[k],
    ) by {
        assert(after.job.plan[k] is RemoveMount || after.job.plan[k] is RemoveSnapshot);
        if k < state.position {
            assert(!undoable(world, state.job, state.job.plan[k]));
        }
    }
    if from <= after.position < after.job.plan.len() {
        assert(after.job.plan[after.position] is RemoveMount || after.job.plan[after.position]
            is RemoveSnapshot);
    }
}

/// One action of a teardown against a model in which nothing is left to
/// undo hands out no command, changes nothing in the model, and brings the
/// end of the workflow nearer.
pub proof fn lemma_silent_step(world: World, state: EngineView, ended: ExitStatus)
    requires
        silent_state(world, state, ended),
        state.stage != Stage::Finished,
    ensures
        silent_state(world, state.react(answer(world, state, ended)), ended),
        effect(world, state) == world,
        state.react(answer(world, state, ended)).job == state.job,
        silent_distance(state.react(answer(world, state, ended))) < silent_distance(state),
        silent_distance(state) >= 0,
{
    lemma_undoing_step(world, state, ended, 0);
    assert(state.job.plan[state.position] is RemoveMount || state.job.plan[state.position]
        is RemoveSnapshot);
    assert(!undoable(world, state.job, state.job.plan[state.position]));
}

/// A workflow against the model keeps, however far it is run, what holds
/// of it; and it is over after at most five actions for every step. For a
/// preview this holds where the plan has no teardown whose effects count.
pub proof fn lemma_undoing_run(
    world: World,
    state: EngineView,
    ended: ExitStatus,
    applied: bool,
    from: int,
    fuel: nat,
)
    requires
        undoing_state(world, state, ended, from),
        applied || from >= state.job.plan.len(),
    ensures
        undoing_state(
            run(world, state, ended, applied, fuel).0,
            run(world, state, ended, applied, fuel).1,
            ended,
            from,
        ),
        run(world, state, ended, applied, fuel).1.job == state.job,
        fuel >= distance(state) ==> run(world, state, ended, applied, fuel).1.stage == Stage::Finished,
    decreases fuel,
{
    if state.stage != Stage::Finished {
        lemma_undoing_step(world, state, ended, from);
        if fuel != 0 {
            lemma_undoing_run(
                if applied {
                    effect(world, state)
                } else {
                    world
                },
                state.react(answer(world, state, ended)),
                ended,
                applied,
                from,
                (fuel - 1) as nat,
            );
        }
    }
}

/// A preview changes nothing in the model, however far it is run.
pub proof fn lemma_preview_changes_nothing(world: World, state: EngineView, ended: ExitStatus, fuel: nat)
    ensures
        run(world, state, ended, false, fuel).0 == world,
    decreases fuel,
{
    if fuel != 0 && state.stage != Stage::Finished {
        lemma_preview_changes_nothing(
            world,
            state.react(answer(world, state, ended)),
            ended,
            (fuel - 1) as nat,
        );
    }
}

/// A teardown against a model in which nothing is left to undo hands out
/// no command and leaves the model as it is, however far it is run; and it
/// is over after at most three actions for every step.
pub proof fn lemma_silent_run(world: World, state: EngineView, ended: ExitStatus, fuel: nat)
    requires
        silent_state(world, state, ended),
    ensures
        silent_state(world, run(world, state, ended, true, fuel).1, ended),
        run(world, state, ended, true, fuel).0 == world,
        run(world, state, ended, true, fuel).1.job == state.job,
        fuel >= silent_distance(state) ==> run(world, state, ended, true, fuel).1.stage
            == Stage::Finished,
    decreases fuel,
{
    if fuel != 0 && state.stage != Stage::Finished {
        lemma_silent_step(world, state, ended);
        lemma_silent_run(world, state.react(answer(world, state, ended)), ended, (fuel - 1) as nat);
    } else if state.stage != Stage::Finished {
        lemma_silent_step(world, state, ended);
    }
}

/// A workflow begins, against any model, in a state of which
/// [`undoing_state`] holds, if its plan ends with a teardown from `from` on.
pub proof fn lemma_undoing_start(world: World, job: JobView, ended: ExitStatus, from: int)
    requires
        job.valid(),
        0 <= from,
        undoing(job, from),
    ensures
        undoing_state(world, EngineView::start(job), ended, from),
{
    lemma_start_valid(job);
    if job.plan.len() > 0 && from <= 0 {
        assert(job.plan[0] is RemoveMount || job.plan[0] is RemoveSnapshot);
    }
}

/// A teardown has only teardown steps, each for an entry that the
/// configuration has.
pub proof fn lemma_teardown_job(toplevel: Seq<char>, config: Config)
    ensures
        teardown_job(toplevel, config).valid(),
        undoing(teardown_job(toplevel, config), 0),
{
    let job = teardown_job(toplevel, config);
    assert forall|k: int| 0 <= k < job.plan.len() implies (#[trigger] step_in_range(
        job.plan[k],
        config.snapshots@.len(),
        config.mounts@.len(),
    )) && (job.plan[k] is RemoveMount || job.plan[k] is RemoveSnapshot) by {
        lemma_plan_order(config.snapshots@.len(), config.mounts@.len(), k);
    }
}

/// A setup against the model, of a tree in which no mount asks to be
/// skipped, is over after at most five actions for every step, with
/// success, and has handed out exactly the command of every step: one for
/// every snapshot, in list order, then one for every mount, in list order.
/// A preview hands out the same commands and leaves the model as it is.
pub proof fn lemma_setup_runs_in_list_order(
    world: World,
    toplevel: Seq<char>,
    config: Config,
    ended: ExitStatus,
    applied: bool,
    fuel: nat,
)
    requires
        fuel >= 5 * (config.snapshots@.len() + config.mounts@.len()),
        forall|i: int| 0 <= i < config.mounts@.len() ==> !config.mounts@[i].if_exists,
    ensures
        ({
            let job = setup_job(toplevel, config);
            let over = run(world, EngineView::start(job), ended, applied, fuel);
            &&& over.1.stage == Stage::Finished
            &&& over.1.faults == 0
            &&& over.1.verdict == Ok::<i32, Error>(0i32)
            &&& over.1.flushes == 0
            &&& over.1.issued == job.plan_commands()
            &&& over.1.issued.len() == config.snapshots@.len() + config.mounts@.len()
            &&& !applied ==> over.0 == world
        }),
{
    let snapshots = config.snapshots@.len();
    let mounts = config.mounts@.len();
    let job = setup_job(toplevel, config);
    assert forall|k: int| 0 <= k < job.plan.len() implies (#[trigger] step_in_range(
        job.plan[k],
        snapshots,
        mounts,
    )) && job.plan[k] != Step::RunProgram && job.unconditional(job.plan[k]) by {
        lemma_plan_order(snapshots, mounts, k);
    }
    lemma_undoing_start(world, job, ended, job.plan.len() as int);
    lemma_undoing_run(world, EngineView::start(job), ended, applied, job.plan.len() as int, fuel);
    lemma_preview_changes_nothing(world, EngineView::start(job), ended, fuel);
    let over = run(world, EngineView::start(job), ended, applied, fuel);
    lemma_setup_hands_out_every_command(over.1);
    lemma_flushes_need_unmounts(over.1);
}

/// A teardown against the model, in any state of the model, is over after
/// at most five actions for every step, with success, and leaves nothing
/// that a teardown step would undo: no target of the configuration is
/// still mounted, no snapshot of it still exists.
pub proof fn lemma_teardown_leaves_nothing(
    world: World,
    toplevel: Seq<char>,
    config: Config,
    ended: ExitStatus,
    fuel: nat,
)
    requires
        fuel >= 5 * (config.snapshots@.len() + config.mounts@.len()),
    ensures
        ({
            let job = teardown_job(toplevel, config);
            let over = run(world, EngineView::start(job), ended, true, fuel);
            &&& over.1.stage == Stage::Finished
            &&& over.1.faults == 0
            &&& over.1.verdict == Ok::<i32, Error>(0i32)
            &&& torn_down(over.0, job, 0, job.plan.len() as int)
        }),
{
    let job = teardown_job(toplevel, config);
    lemma_teardown_job(toplevel, config);
    lemma_undoing_start(world, job, ended, 0);
    lemma_undoing_run(world, EngineView::start(job), ended, true, 0, fuel);
}

/// Teardown is idempotent. Run a teardown against the model, in any state
/// of the model, until it is over. Then run the same teardown again: it
/// hands out no command, not even a flush, leaves the model exactly as the
/// first run left it, counts no fault, and is over, with success, after at
/// most three actions for every step.
pub proof fn lemma_teardown_is_idempotent(
    world: World,
    toplevel: Seq<char>,
    config: Config,
    ended: ExitStatus,
    first: nat,
    second: nat,
)
    requires
        first >= 5 * (config.snapshots@.len() + config.mounts@.len()),
        second >= 3 * (config.snapshots@.len() + config.mounts@.len()),
    ensures
        ({
            let job = teardown_job(toplevel, config);
            let left = run(world, EngineView::start(job), ended, true, first).0;
            let again = run(left, EngineView::start(job), ended, true, second);
            &&& again.0 == left
            &&& again.1.stage == Stage::Finished
            &&& again.1.issued.len() == 0
            &&& again.1.flushes == 0
            &&& again.1.faults == 0
            &&& again.1.verdict == Ok::<i32, Error>(0i32)
        }),
{
    let job = teardown_job(toplevel, config);
    let begun = EngineView::start(job);
    lemma_teardown_job(toplevel, config);
    lemma_teardown_leaves_nothing(world, toplevel, config, ended, first);
    let left = run(world, begun, ended, true, first).0;
    lemma_undoing_start(left, job, ended, 0);
    assert(silent_state(left, begun, ended));
    lemma_silent_run(left, begun, ended, second);
}

/// A run against the model, whatever its workload ends with, goes through
/// its whole plan, the teardown included, leaves nothing that a teardown
/// step would undo, and reports the exit code of the workload.
pub proof fn lemma_run_tears_down_and_reports(
    world: World,
    unmount_before: bool,
    toplevel: Seq<char>,
    config: Config,
    program: CommandView,
    ended: ExitStatus,
    fuel: nat,
)
    requires
        fuel >= 5 * (3 * (config.snapshots@.len() + config.mounts@.len()) + 1),
    ensures
        ({
            let job = run_job(unmount_before, toplevel, config, program);
            let over = run(world, EngineView::start(job), ended, true, fuel);
            let teardown = job.plan.len() - (config.snapshots@.len() + config.mounts@.len());
            &&& over.1.stage == Stage::Finished
            &&& over.1.position == job.plan.len()
            &&& over.1.faults == 0
            &&& over.1.verdict == Ok::<i32, Error>(exit_code(ended))
            &&& job.plan.subrange(teardown, job.plan.len() as int) == teardown_plan(
                config.snapshots@.len(),
                config.mounts@.len(),
            )
            &&& torn_down(over.0, job, teardown, job.plan.len() as int)
        }),
{
    let snapshots = config.snapshots@.len();
    let mounts = config.mounts@.len();
    let job = run_job(unmount_before, toplevel, config, program);
    let from = job.plan.len() - (snapshots + mounts);
    assert(snapshots == config.snapshots.len() && mounts == config.mounts.len());
    lemma_workflow_plans_in_range(unmount_before, snapshots, mounts);
    assert(job.valid());
    assert(job.plan[from - 1] == Step::RunProgram);
    assert forall|k: int| from <= k < job.plan.len() implies (#[trigger] job.plan[k]) is RemoveMount
        || job.plan[k] is RemoveSnapshot by {
        lemma_plan_order(snapshots, mounts, k - from);
        assert(job.plan[k] == teardown_plan(snapshots, mounts)[k - from]);
    }
    assert(job.plan.subrange(from, job.plan.len() as int) =~= teardown_plan(snapshots, mounts));
    lemma_undoing_start(world, job, ended, from);
    lemma_undoing_run(world, EngineView::start(job), ended, true, from, fuel);
}

} // verus!
