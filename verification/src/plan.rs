//! The order in which the entries of a configuration are set up and torn down.

use vstd::prelude::*;

verus! {

/// One unit of work of a workflow. The number is the entry's place in the
/// list of snapshots, or of mounts, of the configuration.
#[derive(Clone, Copy, Debug, PartialEq, Eq, Structural)]
pub enum Step {
    /// Create the snapshot.
    CreateSnapshot(usize),
    /// Mount the entry, unless it asks to be skipped and its source is missing.
    CreateMount(usize),
    /// Launch the workload and wait for it.
    RunProgram,
    /// Unmount the entry's target, if it is mounted.
    RemoveMount(usize),
    /// Remove the snapshot, if it exists.
    RemoveSnapshot(usize),
}

/// The step that reverses `step`; the workload reverses nothing.
pub open spec fn undo(step: Step) -> Step {
    match step {
        Step::CreateSnapshot(i) => Step::RemoveSnapshot(i),
        Step::CreateMount(i) => Step::RemoveMount(i),
        other => other,
    }
}

/// Setting up: every snapshot in list order, then every mount in list order.
pub open spec fn setup_plan(snapshots: nat, mounts: nat) -> Seq<Step> {
    Seq::new(snapshots, |i: int| Step::CreateSnapshot(i as usize)) + Seq::new(
        mounts,
        |i: int| Step::CreateMount(i as usize),
    )
}

/// Tearing down: every mount in reverse list order, then every snapshot in
/// reverse list order.
pub open spec fn teardown_plan(snapshots: nat, mounts: nat) -> Seq<Step> {
    Seq::new(mounts, |i: int| Step::RemoveMount((mounts - 1 - i) as usize)) + Seq::new(
        snapshots,
        |i: int| Step::RemoveSnapshot((snapshots - 1 - i) as usize),
    )
}

/// The teardown that may precede a workflow.
pub open spec fn cleanup_plan(unmount_before: bool, snapshots: nat, mounts: nat) -> Seq<Step> {
    if unmount_before {
        teardown_plan(snapshots, mounts)
    } else {
        Seq::empty()
    }
}

/// Setting up, after an optional teardown of what an earlier run left.
pub open spec fn remount_plan(unmount_before: bool, snapshots: nat, mounts: nat) -> Seq<Step> {
    cleanup_plan(unmount_before, snapshots, mounts) + setup_plan(snapshots, mounts)
}

/// Setting up, the workload, and tearing down again.
pub open spec fn run_plan(unmount_before: bool, snapshots: nat, mounts: nat) -> Seq<Step> {
    remount_plan(unmount_before, snapshots, mounts) + seq![Step::RunProgram] + teardown_plan(
        snapshots,
        mounts,
    )
}

/// Whether `step` names an entry that a configuration of this size has.
pub open spec fn step_in_range(step: Step, snapshots: nat, mounts: nat) -> bool {
    match step {
        Step::CreateSnapshot(i) => i < snapshots,
        Step::RemoveSnapshot(i) => i < snapshots,
        Step::CreateMount(i) => i < mounts,
        Step::RemoveMount(i) => i < mounts,
        Step::RunProgram => true,
    }
}

/// Appends the steps of setting up to `plan`.
pub fn push_setup(plan: &mut Vec<Step>, snapshots: usize, mounts: usize)
    ensures
        final(plan)@ == old(plan)@ + setup_plan(snapshots as nat, mounts as nat),
{
    let ghost before = plan@;
    let mut i: usize = 0;
    while i < snapshots
        invariant
            i <= snapshots,
            plan@ == before + Seq::new(i as nat, |k: int| Step::CreateSnapshot(k as usize)),
        decreases snapshots - i,
    {
        plan.push(Step::CreateSnapshot(i));
        i = i + 1;
        assert(plan@ =~= before + Seq::new(i as nat, |k: int| Step::CreateSnapshot(k as usize)));
    }
    let ghost created = plan@;
    let mut j: usize = 0;
    while j < mounts
        invariant
            j <= mounts,
            plan@ == created + Seq::new(j as nat, |k: int| Step::CreateMount(k as usize)),
        decreases mounts - j,
    {
        plan.push(Step::CreateMount(j));
        j = j + 1;
        assert(plan@ =~= created + Seq::new(j as nat, |k: int| Step::CreateMount(k as usize)));
    }
    assert(plan@ =~= before + setup_plan(snapshots as nat, mounts as nat));
}

/// Appends the steps of tearing down to `plan`.
pub fn push_teardown(plan: &mut Vec<Step>, snapshots: usize, mounts: usize)
    ensures
        final(plan)@ == old(plan)@ + teardown_plan(snapshots as nat, mounts as nat),
{
    let ghost before = plan@;
    let mut i: usize = 0;
    while i < mounts
        invariant
            i <= mounts,
            plan@ == before + Seq::new(i as nat, |k: int| Step::RemoveMount((mounts - 1 - k) as usize)),
        decreases mounts - i,
    {
        plan.push(Step::RemoveMount(mounts - 1 - i));
        i = i + 1;
        assert(plan@ =~= before + Seq::new(
            i as nat,
            |k: int| Step::RemoveMount((mounts - 1 - k) as usize),
        ));
    }
    let ghost unmounted = plan@;
    let mut j: usize = 0;
    while j < snapshots
        invariant
            j <= snapshots,
            plan@ == unmounted + Seq::new(
                j as nat,
                |k: int| Step::RemoveSnapshot((snapshots - 1 - k) as usize),
            ),
        decreases snapshots - j,
    {
        plan.push(Step::RemoveSnapshot(snapshots - 1 - j));
        j = j + 1;
        assert(plan@ =~= unmounted + Seq::new(
            j as nat,
            |k: int| Step::RemoveSnapshot((snapshots - 1 - k) as usize),
        ));
    }
    assert(plan@ =~= before + teardown_plan(snapshots as nat, mounts as nat));
}

/// Teardown is setup undone step by step, last step first: the step at
/// place `i` of the teardown reverses the step at place `i` from the end of
/// the setup. So a mount nested in another is unmounted before it, and every
/// mount is gone before the first snapshot is removed.
pub proof fn lemma_teardown_reverses_setup(snapshots: nat, mounts: nat)
    requires
        snapshots <= usize::MAX,
        mounts <= usize::MAX,
    ensures
        teardown_plan(snapshots, mounts).len() == setup_plan(snapshots, mounts).len(),
        teardown_plan(snapshots, mounts) == setup_plan(snapshots, mounts).reverse().map_values(
            |step: Step| undo(step),
        ),
{
    let setup = setup_plan(snapshots, mounts);
    let teardown = teardown_plan(snapshots, mounts);
    let undone = setup.reverse().map_values(|step: Step| undo(step));
    assert(teardown.len() == undone.len());
    assert forall|i: int| 0 <= i < teardown.len() implies teardown[i] == undone[i] by {
        let back = setup.len() - 1 - i;
        assert(setup.reverse()[i] == setup[back]);
        if i < mounts {
            assert(setup[back] == Step::CreateMount((back - snapshots) as usize));
        } else {
            assert(setup[back] == Step::CreateSnapshot(back as usize));
        }
    }
    assert(teardown =~= undone);
}

/// In a setup, snapshots come before mounts and each kind keeps its list
/// order; in a teardown, mounts come before snapshots and each kind is in
/// reverse list order.
pub proof fn lemma_plan_order(snapshots: nat, mounts: nat, i: int)
    requires
        0 <= i < snapshots + mounts,
    ensures
        setup_plan(snapshots, mounts).len() == snapshots + mounts,
        teardown_plan(snapshots, mounts).len() == snapshots + mounts,
        setup_plan(snapshots, mounts)[i] == (if i < snapshots {
            Step::CreateSnapshot(i as usize)
        } else {
            Step::CreateMount((i - snapshots) as usize)
        }),
        teardown_plan(snapshots, mounts)[i] == (if i < mounts {
            Step::RemoveMount((mounts - 1 - i) as usize)
        } else {
            Step::RemoveSnapshot((snapshots + mounts - 1 - i) as usize)
        }),
        step_in_range(setup_plan(snapshots, mounts)[i], snapshots, mounts),
        step_in_range(teardown_plan(snapshots, mounts)[i], snapshots, mounts),
{
}

} // verus!
