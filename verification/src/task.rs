//! The task-level data model: task states, undo-safety tiers, undo modes and
//! per-task options.

use vstd::prelude::*;

use crate::module::{ModuleInstance, ModuleInstanceView};

verus! {

/// Where the system currently stands relative to a module's declared effect.
/// Produced fresh on each `state` query; never cached across runs.
#[derive(Clone, Copy, Debug, PartialEq, Eq, Structural)]
pub enum TaskState {
    /// The declared effect is in place.
    Applied,
    /// The effect is present but diverges from the declared state.
    OutOfDate,
    /// The declared effect is absent.
    NotApplied,
    /// The module has no observable persisted effect.
    Stateless,
}

/// A static per-module classification of how reversible its undo is.
#[derive(Clone, Copy, Debug, PartialEq, Eq, Structural)]
pub enum UndoSafety {
    /// Fully revertible without side effects.
    Safe,
    /// Reversible but may have side effects.
    Risky,
    /// Cannot be undone automatically.
    Impossible,
}

/// The run-time policy a caller of undo selects.
#[derive(Clone, Copy, Debug, PartialEq, Eq, Structural)]
pub enum UndoMode {
    /// Only modules reporting `UndoSafety::Safe` are undone.
    Safe,
    /// Modules reporting `Safe` or `Risky` are undone.
    Risky,
}

/// Per-task options.
#[derive(Clone, Copy, Debug, PartialEq, Eq, Structural)]
pub struct TaskOpts {
    /// A disabled task is never mutated by apply or undo, though status still
    /// reports its state.
    pub enabled: bool,
}

impl Default for TaskOpts {
    /// By default a task is enabled.
    fn default() -> (opts: TaskOpts)
        ensures
            opts.enabled,
    {
        TaskOpts { enabled: true }
    }
}

/// A named binding of a module instance plus its options, within one
/// compiled run.  Created by the task compiler; immutable thereafter.
#[derive(Clone, Debug, PartialEq, Eq)]
pub struct Task {
    /// Unique within one compiled task set.
    pub name: String,
    /// The bound module instance.
    pub module: ModuleInstance,
    /// The resolved task options.
    pub opts: TaskOpts,
}

/// The mathematical value of a [`Task`].
pub struct TaskView {
    pub name: Seq<char>,
    pub module: ModuleInstanceView,
    pub opts: TaskOpts,
}

impl View for Task {
    type V = TaskView;

    open spec fn view(&self) -> TaskView {
        TaskView { name: self.name@, module: self.module@, opts: self.opts }
    }
}

} // verus!
