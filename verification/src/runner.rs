//! The convergence runner: apply, undo and status over a compiled task set,
//! with enable gating, undo-safety gating and per-task failure isolation.
//!
//! Tasks are processed strictly one at a time, in the order fixed at compile
//! time.  One task's failure never aborts the run: every outcome is recorded
//! against its task's name and the run continues.

use vstd::prelude::*;

use crate::module::{Module, ModuleError, ModuleErrorView};
use crate::task::{Task, TaskState, UndoMode, UndoSafety};
use crate::world::{World, WorldView};

verus! {

/// What happened to one task during an apply or undo run.
#[derive(Clone, Debug, PartialEq, Eq)]
pub enum Outcome {
    /// The module's apply succeeded.
    Applied,
    /// The module's undo succeeded.
    Undone,
    /// The task is disabled; its module was not invoked.
    SkippedDisabled,
    /// Undo was blocked: the module's safety tier is not allowed under the
    /// requested mode.  A deliberate, observable skip — not a failure.
    BlockedBySafety { safety: UndoSafety },
    /// The module's operation failed; the run continued.
    Failed { error: ModuleError },
}

/// The mathematical value of an [`Outcome`].
pub enum OutcomeView {
    Applied,
    Undone,
    SkippedDisabled,
    BlockedBySafety { safety: UndoSafety },
    Failed { error: ModuleErrorView },
}

impl View for Outcome {
    type V = OutcomeView;

    open spec fn view(&self) -> OutcomeView {
        match self {
            Outcome::Applied => OutcomeView::Applied,
            Outcome::Undone => OutcomeView::Undone,
            Outcome::SkippedDisabled => OutcomeView::SkippedDisabled,
            Outcome::BlockedBySafety { safety } => OutcomeView::BlockedBySafety {
                safety: *safety,
            },
            Outcome::Failed { error } => OutcomeView::Failed { error: error@ },
        }
    }
}

/// One task's outcome, attributed to its name.
#[derive(Clone, Debug, PartialEq, Eq)]
pub struct RunRecord {
    pub task: String,
    pub outcome: Outcome,
}

/// The mathematical value of a [`RunRecord`].
pub struct RunRecordView {
    pub task: Seq<char>,
    pub outcome: OutcomeView,
}

impl View for RunRecord {
    type V = RunRecordView;

    open spec fn view(&self) -> RunRecordView {
        RunRecordView { task: self.task@, outcome: self.outcome@ }
    }
}

/// One task's reported state, attributed to its name.
#[derive(Clone, Debug, PartialEq, Eq)]
pub struct StatusRecord {
    pub task: String,
    pub state: TaskState,
}

/// The mathematical value of a [`StatusRecord`].
pub struct StatusRecordView {
    pub task: Seq<char>,
    pub state: TaskState,
}

impl View for StatusRecord {
    type V = StatusRecordView;

    open spec fn view(&self) -> StatusRecordView {
        StatusRecordView { task: self.task@, state: self.state }
    }
}

/// Whether the requested mode allows undoing a module of the given safety
/// tier: `Safe` always, `Risky` only under mode `Risky`, `Impossible` never.
pub open spec fn undo_allowed(safety: UndoSafety, mode: UndoMode) -> bool {
    safety is Safe || (safety is Risky && mode is Risky)
}

/// The world after one task's turn of an apply run.
pub open spec fn apply_step(task: Task, w: WorldView) -> WorldView {
    if !task.opts.enabled {
        w
    } else if task.module.can_apply(w) {
        task.module.applied(w)
    } else {
        w
    }
}

/// One task's recorded outcome during an apply run from world `w`.
pub open spec fn apply_outcome(task: Task, w: WorldView) -> OutcomeView {
    if !task.opts.enabled {
        OutcomeView::SkippedDisabled
    } else if task.module.can_apply(w) {
        OutcomeView::Applied
    } else {
        OutcomeView::Failed { error: task.module.apply_error(w) }
    }
}

/// The world after an apply run over `tasks`, in order, from world `w`.
pub open spec fn apply_run(tasks: Seq<Task>, w: WorldView) -> WorldView
    decreases tasks.len(),
{
    if tasks.len() == 0 {
        w
    } else {
        apply_step(tasks.last(), apply_run(tasks.drop_last(), w))
    }
}

/// The world after one task's turn of an undo run.
pub open spec fn undo_step(task: Task, mode: UndoMode, w: WorldView) -> WorldView {
    if !task.opts.enabled {
        w
    } else if !undo_allowed(task.module.safety(), mode) {
        w
    } else if task.module.can_undo(w) {
        task.module.undone(w)
    } else {
        w
    }
}

/// One task's recorded outcome during an undo run from world `w`.
pub open spec fn undo_outcome(task: Task, mode: UndoMode, w: WorldView) -> OutcomeView {
    if !task.opts.enabled {
        OutcomeView::SkippedDisabled
    } else if !undo_allowed(task.module.safety(), mode) {
        OutcomeView::BlockedBySafety { safety: task.module.safety() }
    } else if task.module.can_undo(w) {
        OutcomeView::Undone
    } else {
        OutcomeView::Failed { error: task.module.undo_error(w) }
    }
}

/// The world after an undo run over `tasks`, in order, from world `w`.
pub open spec fn undo_run(tasks: Seq<Task>, mode: UndoMode, w: WorldView) -> WorldView
    decreases tasks.len(),
{
    if tasks.len() == 0 {
        w
    } else {
        undo_step(tasks.last(), mode, undo_run(tasks.drop_last(), mode, w))
    }
}

/// Apply every enabled task in order, isolating per-task failures.
///
/// The final world is the fold of each enabled task's effect; the records
/// name every task, in order, with the outcome it had in the world reached
/// at its turn.
pub fn run_apply(tasks: &Vec<Task>, w: &mut World) -> (records: Vec<RunRecord>)
    ensures
        final(w)@ == apply_run(tasks@, old(w)@),
        records@.len() == tasks@.len(),
        forall|i: int|
            0 <= i < tasks@.len() ==> (#[trigger] records@[i])@ == (RunRecordView {
                task: tasks@[i].name@,
                outcome: apply_outcome(tasks@[i], apply_run(tasks@.take(i), old(w)@)),
            }),
{
    let mut records: Vec<RunRecord> = Vec::new();
    let mut k: usize = 0;
    proof {
        assert(tasks@.take(0) =~= Seq::<Task>::empty());
    }
    while k < tasks.len()
        invariant
            0 <= k <= tasks@.len(),
            w@ == apply_run(tasks@.take(k as int), old(w)@),
            records@.len() == k,
            forall|i: int|
                0 <= i < k ==> (#[trigger] records@[i])@ == (RunRecordView {
                    task: tasks@[i].name@,
                    outcome: apply_outcome(tasks@[i], apply_run(tasks@.take(i), old(w)@)),
                }),
        decreases tasks@.len() - k,
    {
        let task = &tasks[k];
        let outcome = if !task.opts.enabled {
            Outcome::SkippedDisabled
        } else {
            match task.module.apply(w) {
                Ok(()) => Outcome::Applied,
                Err(error) => Outcome::Failed { error },
            }
        };
        records.push(RunRecord { task: task.name.clone(), outcome });
        proof {
            assert(tasks@.take(k as int + 1).drop_last() =~= tasks@.take(k as int));
            assert(tasks@.take(k as int + 1).last() == tasks@[k as int]);
        }
        k = k + 1;
    }
    proof {
        assert(tasks@.take(tasks@.len() as int) =~= tasks@);
    }
    records
}

/// Undo every enabled task whose safety tier the mode allows, in order,
/// isolating per-task failures.
///
/// A disabled task is skipped; a task whose tier the mode does not allow is
/// recorded as blocked, never silently passed over; an allowed task's undo
/// failure is recorded and the run continues.
pub fn run_undo(tasks: &Vec<Task>, mode: UndoMode, w: &mut World) -> (records: Vec<RunRecord>)
    ensures
        final(w)@ == undo_run(tasks@, mode, old(w)@),
        records@.len() == tasks@.len(),
        forall|i: int|
            0 <= i < tasks@.len() ==> (#[trigger] records@[i])@ == (RunRecordView {
                task: tasks@[i].name@,
                outcome: undo_outcome(tasks@[i], mode, undo_run(tasks@.take(i), mode, old(w)@)),
            }),
{
    let mut records: Vec<RunRecord> = Vec::new();
    let mut k: usize = 0;
    proof {
        assert(tasks@.take(0) =~= Seq::<Task>::empty());
    }
    while k < tasks.len()
        invariant
            0 <= k <= tasks@.len(),
            w@ == undo_run(tasks@.take(k as int), mode, old(w)@),
            records@.len() == k,
            forall|i: int|
                0 <= i < k ==> (#[trigger] records@[i])@ == (RunRecordView {
                    task: tasks@[i].name@,
                    outcome: undo_outcome(
                        tasks@[i],
                        mode,
                        undo_run(tasks@.take(i), mode, old(w)@),
                    ),
                }),
        decreases tasks@.len() - k,
    {
        let task = &tasks[k];
        let outcome = if !task.opts.enabled {
            Outcome::SkippedDisabled
        } else {
            let safety = task.module.undo_safety();
            let allowed = safety == UndoSafety::Safe || (safety == UndoSafety::Risky && mode
                == UndoMode::Risky);
            if !allowed {
                Outcome::BlockedBySafety { safety }
            } else {
                match task.module.undo(w) {
                    Ok(()) => Outcome::Undone,
                    Err(error) => Outcome::Failed { error },
                }
            }
        };
        records.push(RunRecord { task: task.name.clone(), outcome });
        proof {
            assert(tasks@.take(k as int + 1).drop_last() =~= tasks@.take(k as int));
            assert(tasks@.take(k as int + 1).last() == tasks@[k as int]);
        }
        k = k + 1;
    }
    proof {
        assert(tasks@.take(tasks@.len() as int) =~= tasks@);
    }
    records
}

/// Report every task's name and current state — disabled tasks included —
/// without mutating anything.
pub fn run_status(tasks: &Vec<Task>, w: &World) -> (records: Vec<StatusRecord>)
    ensures
        records@.len() == tasks@.len(),
        forall|i: int|
            0 <= i < tasks@.len() ==> (#[trigger] records@[i])@ == (StatusRecordView {
                task: tasks@[i].name@,
                state: tasks@[i].module.task_state(w@),
            }),
{
    let mut records: Vec<StatusRecord> = Vec::new();
    let mut k: usize = 0;
    while k < tasks.len()
        invariant
            0 <= k <= tasks@.len(),
            records@.len() == k,
            forall|i: int|
                0 <= i < k ==> (#[trigger] records@[i])@ == (StatusRecordView {
                    task: tasks@[i].name@,
                    state: tasks@[i].module.task_state(w@),
                }),
        decreases tasks@.len() - k,
    {
        let task = &tasks[k];
        let state = match task.module.state(w) {
            Ok(state) => state,
            Err(_) => {
                proof {
                    assert(false);
                }
                TaskState::NotApplied
            },
        };
        records.push(StatusRecord { task: task.name.clone(), state });
        k = k + 1;
    }
    records
}

/// The undo gating law: a task's undo proceeds — its module's undo is
/// invoked, succeeding or failing — exactly when the task is enabled and the
/// mode allows its safety tier: `Safe` always, `Risky` only under mode
/// `Risky`, and `Impossible` under no mode.  A gated task's turn leaves the
/// world untouched.
pub proof fn lemma_undo_gating(task: Task, mode: UndoMode, w: WorldView)
    ensures
        (undo_outcome(task, mode, w) is Undone || undo_outcome(task, mode, w) is Failed) <==> (
        task.opts.enabled && undo_allowed(task.module.safety(), mode)),
        task.module.safety() is Impossible ==> !undo_allowed(task.module.safety(), mode),
        !(task.opts.enabled && undo_allowed(task.module.safety(), mode)) ==> undo_step(
            task,
            mode,
            w,
        ) == w,
{
}

/// The tasks of `tasks` that are enabled, in order.
pub open spec fn enabled_only(tasks: Seq<Task>) -> Seq<Task>
    decreases tasks.len(),
{
    if tasks.len() == 0 {
        Seq::empty()
    } else {
        let rest = enabled_only(tasks.drop_last());
        if tasks.last().opts.enabled {
            rest.push(tasks.last())
        } else {
            rest
        }
    }
}

/// The disabled-gating law: a disabled task is never mutated by an apply or
/// undo run — both runs change the world exactly as the run over the enabled
/// tasks alone would.  (Status, by its contract, still reports every task's
/// state, disabled tasks included.)
pub proof fn lemma_disabled_untouched(tasks: Seq<Task>, mode: UndoMode, w: WorldView)
    ensures
        apply_run(tasks, w) == apply_run(enabled_only(tasks), w),
        undo_run(tasks, mode, w) == undo_run(enabled_only(tasks), mode, w),
    decreases tasks.len(),
{
    if tasks.len() > 0 {
        let prefix = tasks.drop_last();
        lemma_disabled_untouched(prefix, mode, w);
        if tasks.last().opts.enabled {
            assert(enabled_only(tasks) == enabled_only(prefix).push(tasks.last()));
            assert(enabled_only(prefix).push(tasks.last()).drop_last() =~= enabled_only(prefix));
        }
    }
}

} // verus!
