//! The orchestration engine.
//!
//! A workflow is a plan of steps over a configuration. The engine walks the
//! plan and decides, one question at a time, what its surroundings have to
//! do next: look whether a path exists, read the metadata of a path, execute
//! a command. It is handed the answer and decides again. It performs none of
//! this itself, so the same engine serves real execution and preview.

use vstd::prelude::*;
use crate::command::{optional_view, Command, CommandView, ExitStatus};
use crate::config::Config;
use crate::entry::{
    create_mount, create_mount_command, create_snapshot, create_snapshot_command, remove_mount,
    remove_snapshot, snapshot_device, snapshot_device_path,
};
use crate::error::Error;
use crate::lvm::remove_command;
use crate::mount::{
    get_mount_target, is_mount, is_mount_point, resolve_target, sync, sync_command, unmount_command,
    FileMeta,
};
use crate::path::{parent, parent_of};
use crate::plan::{
    lemma_plan_order, push_setup, push_teardown, remount_plan, run_plan, setup_plan, step_in_range,
    teardown_plan, Step,
};

verus! {

/// What the engine is waiting for.
#[derive(Clone, Copy, Debug, PartialEq, Eq, Structural)]
pub enum Stage {
    /// Whether the path that the current step depends on exists.
    Probing,
    /// The metadata of the mount target of the current step.
    Stat,
    /// The metadata of the parent directory of that target; holds the
    /// metadata of the target itself.
    ParentStat(FileMeta),
    /// The end of the flush that precedes an unmount; how it ends does not
    /// matter.
    Flushing,
    /// The result of the command of the current step, which has to succeed.
    Checking,
    /// The end of the workload.
    Running,
    /// Nothing: the workflow is over.
    Finished,
}

/// What the surroundings of the engine have to do next.
#[derive(Debug, PartialEq, Eq)]
pub enum Action {
    /// Find out whether the path exists; answer with [`Event::Probed`].
    Probe(String),
    /// Read the metadata of the path; answer with [`Event::Stat`].
    Stat(String),
    /// Execute the command and check that it succeeded; answer with
    /// [`Event::Checked`].
    CheckRun(Command),
    /// Execute the command, whatever it ends with; answer with
    /// [`Event::Ran`]. This is the workload, or the flush before an unmount.
    Run(Command),
    /// Stop: the workflow is over and [`Engine::outcome`] tells how.
    Finish,
}

/// The mathematical content of an [`Action`].
pub enum ActionView {
    Probe(Seq<char>),
    Stat(Seq<char>),
    CheckRun(CommandView),
    Run(CommandView),
    Finish,
}

impl View for Action {
    type V = ActionView;

    open spec fn view(&self) -> ActionView {
        match *self {
            Action::Probe(path) => ActionView::Probe(path@),
            Action::Stat(path) => ActionView::Stat(path@),
            Action::CheckRun(command) => ActionView::CheckRun(command@),
            Action::Run(command) => ActionView::Run(command@),
            Action::Finish => ActionView::Finish,
        }
    }
}

/// What the surroundings of the engine report back.
#[derive(Debug, PartialEq, Eq)]
pub enum Event {
    /// Whether the probed path exists.
    Probed(bool),
    /// The metadata that was read, or why it could not be read.
    Stat(Result<FileMeta, Error>),
    /// Whether the command was launched and succeeded.
    Checked(Result<(), Error>),
    /// How the command ended, or why it could not be launched.
    Ran(Result<ExitStatus, Error>),
}

/// The exit code that a workflow reports for a workload that ended with
/// `status`: the workload's own code, or 1 when it was terminated without one.
pub open spec fn exit_code(status: ExitStatus) -> i32 {
    match status.code {
        Some(code) => code,
        None => 1i32,
    }
}

/// The commands among `commands` whose flag is set, in order. `flags` may be
/// shorter than `commands`; it may not be longer.
pub open spec fn select(commands: Seq<CommandView>, flags: Seq<bool>) -> Seq<CommandView>
    decreases flags.len(),
{
    if flags.len() == 0 {
        Seq::empty()
    } else if flags.last() {
        select(commands, flags.drop_last()).push(commands[flags.len() - 1])
    } else {
        select(commands, flags.drop_last())
    }
}

/// How many of the steps whose flag is set are unmounts.
pub open spec fn unmounts(plan: Seq<Step>, flags: Seq<bool>) -> nat
    decreases flags.len(),
{
    if flags.len() == 0 {
        0
    } else if flags.last() && plan[flags.len() - 1] is RemoveMount {
        unmounts(plan, flags.drop_last()) + 1
    } else {
        unmounts(plan, flags.drop_last())
    }
}

/// Whether `step` hands out its command without asking anything first:
/// creating a snapshot, mounting an entry that is not to be skipped when its
/// source is missing, and launching the workload.
pub open spec fn acts_unasked(config: Config, step: Step) -> bool {
    match step {
        Step::CreateSnapshot(_) => true,
        Step::CreateMount(i) => !config.mounts@[i as int].if_exists,
        Step::RunProgram => true,
        _ => false,
    }
}

/// The stage in which the engine arrives at place `position` of `plan`.
pub open spec fn stage_on_arrival(config: Config, plan: Seq<Step>, position: int) -> Stage {
    if position >= plan.len() {
        Stage::Finished
    } else if !acts_unasked(config, plan[position]) {
        Stage::Probing
    } else if plan[position] == Step::RunProgram {
        Stage::Running
    } else {
        Stage::Checking
    }
}

/// What a workflow works on; nothing of it changes while the workflow runs.
pub struct JobView {
    /// The directory under which the tree is replayed.
    pub toplevel: Seq<char>,
    /// The tree.
    pub config: Config,
    /// The workload, for a workflow that has one.
    pub workload: Option<CommandView>,
    /// The steps to take, in order.
    pub plan: Seq<Step>,
}

impl JobView {
    /// The concrete path of the target of the mount at place `i`.
    pub open spec fn target_of(self, i: int) -> Seq<char> {
        resolve_target(self.toplevel, self.config.mounts@[i].logical_target())
    }

    /// The command that `step` may hand out.
    pub open spec fn command_of(self, step: Step) -> CommandView {
        match step {
            Step::CreateSnapshot(i) => create_snapshot_command(self.config.snapshots@[i as int]),
            Step::CreateMount(i) => create_mount_command(self.toplevel, self.config.mounts@[i as int]),
            Step::RunProgram => self.workload->0,
            Step::RemoveMount(i) => unmount_command(self.target_of(i as int)),
            Step::RemoveSnapshot(i) => remove_command(
                snapshot_device_path(self.config.snapshots@[i as int]),
            ),
        }
    }

    /// The path whose existence decides whether `step` has anything to do.
    pub open spec fn probe_path(self, step: Step) -> Seq<char> {
        match step {
            Step::CreateMount(i) => self.config.mounts@[i as int].source@,
            Step::RemoveMount(i) => self.target_of(i as int),
            Step::RemoveSnapshot(i) => snapshot_device_path(self.config.snapshots@[i as int]),
            _ => Seq::empty(),
        }
    }

    /// Whether `step` hands out its command without asking anything first.
    pub open spec fn unconditional(self, step: Step) -> bool {
        acts_unasked(self.config, step)
    }

    /// The command of every step of the plan, in plan order.
    pub open spec fn plan_commands(self) -> Seq<CommandView> {
        Seq::new(self.plan.len(), |i: int| self.command_of(self.plan[i]))
    }

    /// Every step names an entry of the configuration, and there is a
    /// workload if a step launches one.
    pub open spec fn valid(self) -> bool {
        forall|i: int|
            0 <= i < self.plan.len() ==> {
                &&& #[trigger] step_in_range(
                    self.plan[i],
                    self.config.snapshots@.len(),
                    self.config.mounts@.len(),
                )
                &&& (self.plan[i] == Step::RunProgram ==> self.workload is Some)
            }
    }
}

/// The job of setting up `config` below `toplevel`.
pub open spec fn setup_job(toplevel: Seq<char>, config: Config) -> JobView {
    JobView {
        toplevel,
        config,
        workload: None,
        plan: setup_plan(config.snapshots@.len(), config.mounts@.len()),
    }
}

/// The job of tearing down `config` below `toplevel`.
pub open spec fn teardown_job(toplevel: Seq<char>, config: Config) -> JobView {
    JobView {
        toplevel,
        config,
        workload: None,
        plan: teardown_plan(config.snapshots@.len(), config.mounts@.len()),
    }
}

/// The job of setting up `config` below `toplevel`, after tearing down what
/// an earlier run may have left if `unmount_before` is set.
pub open spec fn remount_job(unmount_before: bool, toplevel: Seq<char>, config: Config) -> JobView {
    JobView {
        toplevel,
        config,
        workload: None,
        plan: remount_plan(unmount_before, config.snapshots@.len(), config.mounts@.len()),
    }
}

/// The job of running `program` while `config` is set up below `toplevel`.
pub open spec fn run_job(
    unmount_before: bool,
    toplevel: Seq<char>,
    config: Config,
    program: CommandView,
) -> JobView {
    JobView {
        toplevel,
        config,
        workload: Some(program),
        plan: run_plan(unmount_before, config.snapshots@.len(), config.mounts@.len()),
    }
}

/// The state of a workflow.
pub struct EngineView {
    /// What the workflow works on.
    pub job: JobView,
    /// The place in the plan of the current step; the length of the plan
    /// when all steps are done.
    pub position: int,
    /// What the engine is waiting for.
    pub stage: Stage,
    /// What the workflow reports if nothing fails from here on.
    pub verdict: Result<i32, Error>,
    /// How the workload ended, once it has.
    pub exited: Option<ExitStatus>,
    /// How many failures were reported to the engine.
    pub faults: nat,
    /// The command of every step that handed one out so far, in order. The
    /// flush that precedes an unmount is not among them.
    pub issued: Seq<CommandView>,
    /// How many flushes were handed out so far.
    pub flushes: nat,
    /// For every step decided so far, whether its command was handed out.
    pub done: Seq<bool>,
}

impl EngineView {
    /// The current step.
    pub open spec fn step(self) -> Step {
        self.job.plan[self.position]
    }

    /// The action that the engine is waiting on.
    pub open spec fn pending(self) -> ActionView {
        match self.stage {
            Stage::Probing => ActionView::Probe(self.job.probe_path(self.step())),
            Stage::Stat => ActionView::Stat(self.job.probe_path(self.step())),
            Stage::ParentStat(_) => ActionView::Stat(parent_of(self.job.probe_path(self.step()))->0),
            Stage::Flushing => ActionView::Run(sync_command(self.job.probe_path(self.step()))),
            Stage::Checking => ActionView::CheckRun(self.job.command_of(self.step())),
            Stage::Running => ActionView::Run(self.job.command_of(self.step())),
            Stage::Finished => ActionView::Finish,
        }
    }

    /// The state after handing out the command of the current step.
    pub open spec fn perform(self) -> EngineView {
        EngineView {
            stage: if self.step() == Step::RunProgram {
                Stage::Running
            } else {
                Stage::Checking
            },
            issued: self.issued.push(self.job.command_of(self.step())),
            done: self.done.push(true),
            ..self
        }
    }

    /// The state on arriving at place `position` of the plan: finished at
    /// the end of the plan, asking where the step depends on a path, and
    /// handing out the step's command where it does not.
    pub open spec fn arrive(self, position: int) -> EngineView {
        let there = EngineView { position, ..self };
        match stage_on_arrival(self.job.config, self.job.plan, position) {
            Stage::Checking => there.perform(),
            Stage::Running => there.perform(),
            stage => EngineView { stage, ..there },
        }
    }

    /// The state after deciding that the current step has nothing to do.
    pub open spec fn skip(self) -> EngineView {
        (EngineView { done: self.done.push(false), ..self }).arrive(self.position + 1)
    }

    /// The state after a failure: the workflow is over and reports `error`.
    pub open spec fn fail(self, error: Error) -> EngineView {
        EngineView { stage: Stage::Finished, verdict: Err(error), faults: self.faults + 1, ..self }
    }

    /// The state after `event`. An event that does not answer the pending
    /// action changes nothing.
    pub open spec fn react(self, event: Event) -> EngineView {
        match event {
            Event::Probed(present) => match self.stage {
                Stage::Probing => if !present {
                    self.skip()
                } else if self.step() is RemoveMount {
                    EngineView { stage: Stage::Stat, ..self }
                } else {
                    self.perform()
                },
                _ => self,
            },
            Event::Stat(Err(error)) => match self.stage {
                Stage::Stat => self.fail(error),
                Stage::ParentStat(_) => self.fail(error),
                _ => self,
            },
            Event::Stat(Ok(meta)) => match self.stage {
                Stage::Stat => if meta.is_symlink || parent_of(self.job.probe_path(self.step())) is None {
                    self.skip()
                } else {
                    EngineView { stage: Stage::ParentStat(meta), ..self }
                },
                Stage::ParentStat(target) => if is_mount_point(target, Some(meta)) {
                    EngineView { stage: Stage::Flushing, flushes: self.flushes + 1, ..self }
                } else {
                    self.skip()
                },
                _ => self,
            },
            Event::Checked(Err(error)) => match self.stage {
                Stage::Checking => self.fail(error),
                _ => self,
            },
            Event::Checked(Ok(_)) => match self.stage {
                Stage::Checking => self.arrive(self.position + 1),
                _ => self,
            },
            Event::Ran(Err(error)) => match self.stage {
                Stage::Flushing => self.perform(),
                Stage::Running => (EngineView {
                    verdict: Err(error),
                    faults: self.faults + 1,
                    ..self
                }).arrive(self.position + 1),
                _ => self,
            },
            Event::Ran(Ok(status)) => match self.stage {
                Stage::Flushing => self.perform(),
                Stage::Running => (EngineView {
                    verdict: Ok(exit_code(status)),
                    exited: Some(status),
                    ..self
                }).arrive(self.position + 1),
                _ => self,
            },
        }
    }

    /// Whether the stage agrees with the current step.
    pub open spec fn stage_fits(self) -> bool {
        match self.stage {
            Stage::Finished => true,
            Stage::Probing => self.position < self.job.plan.len() && !self.job.unconditional(self.step())
                && (self.step() is CreateMount || self.step() is RemoveMount
                || self.step() is RemoveSnapshot),
            Stage::Stat => self.position < self.job.plan.len() && self.step() is RemoveMount,
            Stage::ParentStat(_) => self.position < self.job.plan.len() && self.step() is RemoveMount
                && parent_of(self.job.probe_path(self.step())) is Some,
            Stage::Flushing => self.position < self.job.plan.len() && self.step() is RemoveMount,
            Stage::Checking => self.position < self.job.plan.len() && self.step() != Step::RunProgram,
            Stage::Running => self.position < self.job.plan.len() && self.step() == Step::RunProgram,
        }
    }

    /// How many steps are decided in this stage at this position.
    pub open spec fn decided(self) -> int {
        match self.stage {
            Stage::Checking => self.position + 1,
            Stage::Running => self.position + 1,
            _ => self.position,
        }
    }

    /// What holds of every state that a workflow reaches.
    pub open spec fn valid(self) -> bool {
        &&& self.job.valid()
        &&& 0 <= self.position <= self.job.plan.len()
        &&& self.stage_fits()
        &&& self.done.len() <= self.job.plan.len()
        &&& self.stage != Stage::Finished ==> self.done.len() == self.decided()
        &&& self.stage == Stage::Finished ==> self.position <= self.done.len() <= self.position + 1
        &&& self.stage == Stage::Finished && self.faults == 0 ==> self.done.len()
            == self.job.plan.len()
        &&& self.issued == select(self.job.plan_commands(), self.done)
        &&& self.flushes == unmounts(self.job.plan, self.done) + (if self.stage == Stage::Flushing {
            1nat
        } else {
            0nat
        })
        &&& forall|i: int|
            0 <= i < self.done.len() && self.job.unconditional(#[trigger] self.job.plan[i])
                ==> self.done[i]
        &&& self.faults == 0 ==> self.verdict == Ok::<i32, Error>(
            match self.exited {
                Some(status) => exit_code(status),
                None => 0i32,
            },
        )
    }

    /// The state in which a workflow over `job` begins.
    pub open spec fn start(job: JobView) -> EngineView {
        (EngineView {
            job,
            position: 0,
            stage: Stage::Finished,
            verdict: Ok(0i32),
            exited: None,
            faults: 0,
            issued: Seq::empty(),
            flushes: 0,
            done: Seq::empty(),
        }).arrive(0)
    }
}

/// Deciding one more step extends the commands handed out by the command of
/// that step, or by nothing.
pub proof fn lemma_select_push(commands: Seq<CommandView>, flags: Seq<bool>, flag: bool)
    ensures
        select(commands, flags.push(flag)) == (if flag {
            select(commands, flags).push(commands[flags.len() as int])
        } else {
            select(commands, flags)
        }),
{
    assert(flags.push(flag).drop_last() =~= flags);
}

/// Deciding one more step adds one to the unmounts handed out if the step
/// is an unmount and was not skipped.
pub proof fn lemma_unmounts_push(plan: Seq<Step>, flags: Seq<bool>, flag: bool)
    ensures
        unmounts(plan, flags.push(flag)) == unmounts(plan, flags) + (if flag && plan[flags.len() as int]
            is RemoveMount {
            1nat
        } else {
            0nat
        }),
{
    assert(flags.push(flag).drop_last() =~= flags);
}

/// A workflow begins in a valid state.
pub proof fn lemma_start_valid(job: JobView)
    requires
        job.valid(),
    ensures
        EngineView::start(job).valid(),
{
    let flags = Seq::<bool>::empty();
    lemma_select_push(job.plan_commands(), flags, true);
    lemma_unmounts_push(job.plan, flags, true);
    let begun = EngineView::start(job);
    if job.plan.len() > 0 {
        assert(step_in_range(job.plan[0], job.config.snapshots@.len(), job.config.mounts@.len()));
    }
    assert(begun.valid());
}

/// Every event leads from a valid state to a valid state.
pub proof fn lemma_react_valid(before: EngineView, event: Event)
    requires
        before.valid(),
    ensures
        before.react(event).valid(),
        before.react(event).job == before.job,
{
    let after = before.react(event);
    let commands = before.job.plan_commands();
    lemma_select_push(commands, before.done, true);
    lemma_select_push(commands, before.done, false);
    lemma_select_push(commands, before.done.push(false), true);
    lemma_unmounts_push(before.job.plan, before.done, true);
    lemma_unmounts_push(before.job.plan, before.done, false);
    lemma_unmounts_push(before.job.plan, before.done.push(false), true);
    if before.position + 1 < before.job.plan.len() {
        assert(step_in_range(
            before.job.plan[before.position + 1],
            before.job.config.snapshots@.len(),
            before.job.config.mounts@.len(),
        ));
    }
    assert(after.valid());
}

/// Computes the stage in which the engine arrives at place `position`.
fn entry_stage(plan: &Vec<Step>, config: &Config, position: usize) -> (stage: Stage)
    requires
        position <= plan@.len(),
        forall|i: int|
            0 <= i < plan@.len() ==> #[trigger] step_in_range(
                plan@[i],
                config.snapshots@.len(),
                config.mounts@.len(),
            ),
    ensures
        stage == stage_on_arrival(*config, plan@, position as int),
{
    if position >= plan.len() {
        return Stage::Finished;
    }
    assert(step_in_range(plan@[position as int], config.snapshots@.len(), config.mounts@.len()));
    match plan[position] {
        Step::CreateSnapshot(_) => Stage::Checking,
        Step::CreateMount(i) => if config.mounts[i].if_exists {
            Stage::Probing
        } else {
            Stage::Checking
        },
        Step::RunProgram => Stage::Running,
        Step::RemoveMount(_) => Stage::Probing,
        Step::RemoveSnapshot(_) => Stage::Probing,
    }
}

/// A workflow in progress.
pub struct Engine {
    toplevel: String,
    config: Config,
    workload: Option<Command>,
    plan: Vec<Step>,
    position: usize,
    stage: Stage,
    verdict: Result<i32, Error>,
    exited: Ghost<Option<ExitStatus>>,
    faults: Ghost<nat>,
    issued: Ghost<Seq<CommandView>>,
    flushes: Ghost<nat>,
    done: Ghost<Seq<bool>>,
}

impl View for Engine {
    type V = EngineView;

    closed spec fn view(&self) -> EngineView {
        EngineView {
            job: JobView {
                toplevel: self.toplevel@,
                config: self.config,
                workload: optional_view(self.workload),
                plan: self.plan@,
            },
            position: self.position as int,
            stage: self.stage,
            verdict: self.verdict,
            exited: self.exited@,
            faults: self.faults@,
            issued: self.issued@,
            flushes: self.flushes@,
            done: self.done@,
        }
    }
}

impl Engine {
    /// Every engine is in a state that a workflow reaches.
    #[verifier::type_invariant]
    spec fn inv(&self) -> bool {
        self@.valid()
    }

    /// Begins a workflow over the given plan.
    fn begin(toplevel: String, config: Config, workload: Option<Command>, plan: Vec<Step>) -> (begun: (
        Engine,
        Action,
    ))
        requires
            (JobView {
                toplevel: toplevel@,
                config,
                workload: optional_view(workload),
                plan: plan@,
            }).valid(),
        ensures
            begun.0@ == EngineView::start(
                JobView { toplevel: toplevel@, config, workload: optional_view(workload), plan: plan@ },
            ),
            begun.0@.valid(),
            begun.1@ == begun.0@.pending(),
    {
        let ghost job = JobView {
            toplevel: toplevel@,
            config,
            workload: optional_view(workload),
            plan: plan@,
        };
        proof {
            lemma_start_valid(job);
            assert(select(job.plan_commands(), Seq::<bool>::empty()) =~= Seq::<CommandView>::empty());
        }
        let stage = entry_stage(&plan, &config, 0);
        let ghost target = EngineView::start(job);
        let engine = Engine {
            toplevel,
            config,
            workload,
            plan,
            position: 0,
            stage,
            verdict: Ok(0),
            exited: Ghost(None),
            faults: Ghost(0),
            issued: Ghost(target.issued),
            flushes: Ghost(0),
            done: Ghost(target.done),
        };
        let action = engine.pending();
        (engine, action)
    }

    /// The workflow that creates every snapshot and then every mount.
    pub fn mount_all(toplevel: String, config: Config) -> (begun: (Engine, Action))
        ensures
            begun.0@ == EngineView::start(setup_job(toplevel@, config)),
            begun.0@.valid(),
            begun.1@ == begun.0@.pending(),
    {
        Engine::unmount_mount_all(false, toplevel, config)
    }

    /// The workflow that unmounts every mount and then removes every
    /// snapshot, each kind in reverse list order.
    pub fn unmount_all(toplevel: String, config: Config) -> (begun: (Engine, Action))
        ensures
            begun.0@ == EngineView::start(teardown_job(toplevel@, config)),
            begun.0@.valid(),
            begun.1@ == begun.0@.pending(),
    {
        let mut plan: Vec<Step> = Vec::new();
        push_teardown(&mut plan, config.snapshots.len(), config.mounts.len());
        proof {
            let s = config.snapshots@.len();
            let m = config.mounts@.len();
            assert(plan@ =~= teardown_plan(s, m));
            assert forall|i: int| 0 <= i < plan@.len() implies #[trigger] step_in_range(plan@[i], s, m) by {
                lemma_plan_order(s, m, i);
            }
        }
        Engine::begin(toplevel, config, None, plan)
    }

    /// The workflow that sets the tree up, after tearing down what an
    /// earlier run may have left if `unmount_before` is set.
    pub fn unmount_mount_all(unmount_before: bool, toplevel: String, config: Config) -> (begun: (
        Engine,
        Action,
    ))
        ensures
            begun.0@ == EngineView::start(remount_job(unmount_before, toplevel@, config)),
            begun.0@.valid(),
            begun.1@ == begun.0@.pending(),
    {
        let mut plan: Vec<Step> = Vec::new();
        if unmount_before {
            push_teardown(&mut plan, config.snapshots.len(), config.mounts.len());
        }
        push_setup(&mut plan, config.snapshots.len(), config.mounts.len());
        proof {
            let s = config.snapshots@.len();
            let m = config.mounts@.len();
            assert(plan@ =~= remount_plan(unmount_before, s, m));
            lemma_workflow_plans_in_range(unmount_before, s, m);
        }
        Engine::begin(toplevel, config, None, plan)
    }

    /// The workflow that sets the tree up, launches `program`, and tears the
    /// tree down again whatever became of the program.
    pub fn run_with_mounts(unmount_before: bool, toplevel: String, config: Config, program: Command) -> (begun: (
        Engine,
        Action,
    ))
        ensures
            begun.0@ == EngineView::start(run_job(unmount_before, toplevel@, config, program@)),
            begun.0@.valid(),
            begun.1@ == begun.0@.pending(),
    {
        let mut plan: Vec<Step> = Vec::new();
        if unmount_before {
            push_teardown(&mut plan, config.snapshots.len(), config.mounts.len());
        }
        push_setup(&mut plan, config.snapshots.len(), config.mounts.len());
        plan.push(Step::RunProgram);
        push_teardown(&mut plan, config.snapshots.len(), config.mounts.len());
        proof {
            let s = config.snapshots@.len();
            let m = config.mounts@.len();
            assert(plan@ =~= run_plan(unmount_before, s, m));
            lemma_workflow_plans_in_range(unmount_before, s, m);
        }
        Engine::begin(toplevel, config, Some(program), plan)
    }

    /// The engine in the state `target`, which differs from the present one
    /// at most in place, stage, verdict and history.
    fn rebuild(
        self,
        position: usize,
        stage: Stage,
        verdict: Option<Result<i32, Error>>,
        Ghost(target): Ghost<EngineView>,
    ) -> (next: Engine)
        requires
            target.valid(),
            target.job == self@.job,
            target.position == position,
            target.stage == stage,
            target.verdict == (match verdict {
                Some(v) => v,
                None => self@.verdict,
            }),
        ensures
            next@ == target,
    {
        let Engine { toplevel, config, workload, plan, verdict: kept, .. } = self;
        let verdict = match verdict {
            Some(v) => v,
            None => kept,
        };
        Engine {
            toplevel,
            config,
            workload,
            plan,
            position,
            stage,
            verdict,
            exited: Ghost(target.exited),
            faults: Ghost(target.faults),
            issued: Ghost(target.issued),
            flushes: Ghost(target.flushes),
            done: Ghost(target.done),
        }
    }

    /// The path that the current step depends on.
    fn probe_path(&self) -> (path: String)
        requires
            self@.position < self@.job.plan.len(),
        ensures
            path@ == self@.job.probe_path(self@.step()),
    {
        proof {
            use_type_invariant(self);
            assert(step_in_range(
                self@.job.plan[self@.position],
                self@.job.config.snapshots@.len(),
                self@.job.config.mounts@.len(),
            ));
        }
        match self.plan[self.position] {
            Step::CreateMount(i) => self.config.mounts[i].source.clone(),
            Step::RemoveMount(i) => get_mount_target(self.toplevel.as_str(), &self.config.mounts[i]),
            Step::RemoveSnapshot(i) => snapshot_device(&self.config.snapshots[i]),
            _ => String::new(),
        }
    }

    /// The command of the current step.
    fn command(&self) -> (command: Command)
        requires
            self@.position < self@.job.plan.len(),
        ensures
            command@ == self@.job.command_of(self@.step()),
    {
        proof {
            use_type_invariant(self);
            assert(step_in_range(
                self@.job.plan[self@.position],
                self@.job.config.snapshots@.len(),
                self@.job.config.mounts@.len(),
            ));
        }
        match self.plan[self.position] {
            Step::CreateSnapshot(i) => create_snapshot(&self.config.snapshots[i]),
            Step::CreateMount(i) => create_mount(
                self.toplevel.as_str(),
                &self.config.mounts[i],
                true,
            ).unwrap(),
            Step::RunProgram => match &self.workload {
                Some(program) => program.duplicate(),
                None => Command::new(""),
            },
            Step::RemoveMount(i) => remove_mount(
                self.toplevel.as_str(),
                &self.config.mounts[i],
                true,
            ).unwrap(),
            Step::RemoveSnapshot(i) => remove_snapshot(&self.config.snapshots[i], true).unwrap(),
        }
    }

    /// The action that the engine is waiting on: what to do next.
    pub fn pending(&self) -> (action: Action)
        ensures
            action@ == self@.pending(),
    {
        proof {
            use_type_invariant(self);
        }
        match self.stage {
            Stage::Probing => Action::Probe(self.probe_path()),
            Stage::Stat => Action::Stat(self.probe_path()),
            Stage::ParentStat(_) => {
                let target = self.probe_path();
                match parent(target.as_str()) {
                    Some(up) => Action::Stat(up),
                    None => Action::Finish,
                }
            },
            Stage::Flushing => {
                let target = self.probe_path();
                Action::Run(sync(target.as_str()))
            },
            Stage::Checking => Action::CheckRun(self.command()),
            Stage::Running => Action::Run(self.command()),
            Stage::Finished => Action::Finish,
        }
    }

    /// Whether the workflow is over.
    pub fn is_finished(&self) -> (over: bool)
        ensures
            over == (self@.stage == Stage::Finished),
    {
        match self.stage {
            Stage::Finished => true,
            _ => false,
        }
    }

    /// How the workflow ended: the exit code to report, or the failure that
    /// stopped it. `None` while the workflow is not over.
    pub fn outcome(self) -> (outcome: Option<Result<i32, Error>>)
        ensures
            outcome == (if self@.stage == Stage::Finished {
                Some(self@.verdict)
            } else {
                None
            }),
    {
        match self.stage {
            Stage::Finished => Some(self.verdict),
            _ => None,
        }
    }

    /// Takes the answer to the pending action and decides what to do next.
    /// An event that does not answer the pending action changes nothing,
    /// and the pending action is returned again.
    pub fn advance(self, event: Event) -> (next: (Engine, Action))
        ensures
            next.0@ == self@.react(event),
            next.0@.valid(),
            next.1@ == next.0@.pending(),
    {
        proof {
            use_type_invariant(&self);
            lemma_react_valid(self@, event);
        }
        let ghost target = self@.react(event);
        let stage = self.stage;
        let here = self.position;
        assert(self@.stage_fits());
        assert(stage != Stage::Finished ==> here < self.plan.len());
        let moved = match event {
            Event::Probed(present) => match stage {
                Stage::Probing => {
                    if !present {
                        let entry = entry_stage(&self.plan, &self.config, here + 1);
                        self.rebuild(here + 1, entry, None, Ghost(target))
                    } else {
                        match self.plan[here] {
                            Step::RemoveMount(_) => self.rebuild(here, Stage::Stat, None, Ghost(target)),
                            _ => self.rebuild(here, Stage::Checking, None, Ghost(target)),
                        }
                    }
                },
                _ => self,
            },
            Event::Stat(Err(error)) => match stage {
                Stage::Stat => self.rebuild(here, Stage::Finished, Some(Err(error)), Ghost(target)),
                Stage::ParentStat(_) => self.rebuild(
                    here,
                    Stage::Finished,
                    Some(Err(error)),
                    Ghost(target),
                ),
                _ => self,
            },
            Event::Stat(Ok(meta)) => match stage {
                Stage::Stat => {
                    let path = self.probe_path();
                    let up = parent(path.as_str());
                    if meta.is_symlink || up.is_none() {
                        let entry = entry_stage(&self.plan, &self.config, here + 1);
                        self.rebuild(here + 1, entry, None, Ghost(target))
                    } else {
                        self.rebuild(here, Stage::ParentStat(meta), None, Ghost(target))
                    }
                },
                Stage::ParentStat(own) => {
                    if is_mount(own, Some(meta)) {
                        self.rebuild(here, Stage::Flushing, None, Ghost(target))
                    } else {
                        let entry = entry_stage(&self.plan, &self.config, here + 1);
                        self.rebuild(here + 1, entry, None, Ghost(target))
                    }
                },
                _ => self,
            },
            Event::Checked(Err(error)) => match stage {
                Stage::Checking => self.rebuild(here, Stage::Finished, Some(Err(error)), Ghost(target)),
                _ => self,
            },
            Event::Checked(Ok(_)) => match stage {
                Stage::Checking => {
                    let entry = entry_stage(&self.plan, &self.config, here + 1);
                    self.rebuild(here + 1, entry, None, Ghost(target))
                },
                _ => self,
            },
            Event::Ran(Err(error)) => match stage {
                Stage::Flushing => self.rebuild(here, Stage::Checking, None, Ghost(target)),
                Stage::Running => {
                    let entry = entry_stage(&self.plan, &self.config, here + 1);
                    self.rebuild(here + 1, entry, Some(Err(error)), Ghost(target))
                },
                _ => self,
            },
            Event::Ran(Ok(status)) => match stage {
                Stage::Flushing => self.rebuild(here, Stage::Checking, None, Ghost(target)),
                Stage::Running => {
                    let code: i32 = match status.code {
                        Some(code) => code,
                        None => 1,
                    };
                    let entry = entry_stage(&self.plan, &self.config, here + 1);
                    self.rebuild(here + 1, entry, Some(Ok(code)), Ghost(target))
                },
                _ => self,
            },
        };
        let action = moved.pending();
        (moved, action)
    }
}

/// Every plan of a workflow names only entries that the configuration has.
pub proof fn lemma_workflow_plans_in_range(unmount_before: bool, snapshots: nat, mounts: nat)
    requires
        snapshots <= usize::MAX,
        mounts <= usize::MAX,
    ensures
        forall|i: int|
            0 <= i < remount_plan(unmount_before, snapshots, mounts).len() ==> #[trigger] step_in_range(
                remount_plan(unmount_before, snapshots, mounts)[i],
                snapshots,
                mounts,
            ),
        forall|i: int|
            0 <= i < run_plan(unmount_before, snapshots, mounts).len() ==> #[trigger] step_in_range(
                run_plan(unmount_before, snapshots, mounts)[i],
                snapshots,
                mounts,
            ),
{
}

} // verus!
