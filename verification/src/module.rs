//! The module capability contract and the built-in modules.
//!
//! A module is a unit of idempotent system change.  Every module states its
//! whole behaviour as transitions on a [`WorldView`]: when each operation
//! succeeds, what it changes, and what state it reports.  The capability
//! guarantees — apply is idempotent, undo reverts or is a no-op — are proof
//! obligations every module must discharge.

use vstd::prelude::*;

use crate::task::{TaskState, UndoSafety};
use crate::world::{OutputEvent, OutputEventView, World, WorldView};

verus! {

/// A module-specific operation failure.
#[derive(Clone, Debug, PartialEq, Eq)]
pub enum ModuleError {
    /// The machine refuses changes to the file at `path`.
    AccessDenied { path: String },
}

/// The mathematical value of a [`ModuleError`].
pub enum ModuleErrorView {
    AccessDenied { path: Seq<char> },
}

impl View for ModuleError {
    type V = ModuleErrorView;

    open spec fn view(&self) -> ModuleErrorView {
        match self {
            ModuleError::AccessDenied { path } => ModuleErrorView::AccessDenied { path: path@ },
        }
    }
}

/// The capability contract every task target implements: apply, undo,
/// undo-safety and state, together with the guarantees the engine relies on.
pub trait Module: Sized {
    /// Whether `apply` would succeed from world `w`.
    spec fn can_apply(&self, w: WorldView) -> bool;

    /// The world after a successful `apply` from `w`.
    spec fn applied(&self, w: WorldView) -> WorldView;

    /// The error a failing `apply` reports from `w`.
    spec fn apply_error(&self, w: WorldView) -> ModuleErrorView;

    /// Whether `undo` would succeed from world `w`.
    spec fn can_undo(&self, w: WorldView) -> bool;

    /// The world after a successful `undo` from `w`.
    spec fn undone(&self, w: WorldView) -> WorldView;

    /// The error a failing `undo` reports from `w`.
    spec fn undo_error(&self, w: WorldView) -> ModuleErrorView;

    /// The module's static undo-safety tier.
    spec fn safety(&self) -> UndoSafety;

    /// The state the module reports from world `w`.
    spec fn task_state(&self, w: WorldView) -> TaskState;

    /// Perform the module's declared effect.
    fn apply(&self, w: &mut World) -> (r: Result<(), ModuleError>)
        ensures
            r is Ok <==> self.can_apply(old(w)@),
            r is Ok ==> final(w)@ == self.applied(old(w)@),
            r matches Err(e) ==> final(w)@ == old(w)@ && e@ == self.apply_error(old(w)@),
    ;

    /// Reverse the module's effect; a no-op when the effect is absent.
    fn undo(&self, w: &mut World) -> (r: Result<(), ModuleError>)
        ensures
            r is Ok <==> self.can_undo(old(w)@),
            r is Ok ==> final(w)@ == self.undone(old(w)@),
            r matches Err(e) ==> final(w)@ == old(w)@ && e@ == self.undo_error(old(w)@),
    ;

    /// The module's undo-safety tier; pure.
    fn undo_safety(&self) -> (s: UndoSafety)
        ensures
            s == self.safety(),
    ;

    /// Report where the system stands relative to the declared effect; a pure
    /// query that never mutates the world.
    fn state(&self, w: &World) -> (r: Result<TaskState, ModuleError>)
        ensures
            r == Ok::<TaskState, ModuleError>(self.task_state(w@)),
    ;

    /// Apply is idempotent: after one successful apply, a second apply also
    /// succeeds and reports the same state.
    proof fn apply_idempotent(&self, w: WorldView)
        requires
            self.can_apply(w),
        ensures
            self.can_apply(self.applied(w)),
            self.task_state(self.applied(self.applied(w))) == self.task_state(self.applied(w)),
    ;

    /// Undo after a successful apply succeeds and returns the reported state
    /// to `NotApplied`, or to `Stateless` for modules without persisted state.
    proof fn undo_reverts(&self, w: WorldView)
        requires
            self.can_apply(w),
        ensures
            self.can_undo(self.applied(w)),
            self.task_state(self.undone(self.applied(w))) is NotApplied || self.task_state(
                self.undone(self.applied(w)),
            ) is Stateless,
    ;

    /// Undo without a prior apply succeeds and changes nothing.
    proof fn undo_noop(&self, w: WorldView)
        requires
            self.task_state(w) is NotApplied || self.task_state(w) is Stateless,
        ensures
            self.can_undo(w),
            self.undone(w) == w,
    ;
}

/// A module that prints a message; it has no persisted effect.
#[derive(Clone, Debug, PartialEq, Eq)]
pub struct Echo {
    pub message: String,
}

/// The mathematical value of an [`Echo`] module.
pub struct EchoView {
    pub message: Seq<char>,
}

impl View for Echo {
    type V = EchoView;

    open spec fn view(&self) -> EchoView {
        EchoView { message: self.message@ }
    }
}

impl Module for Echo {
    open spec fn can_apply(&self, w: WorldView) -> bool {
        true
    }

    open spec fn applied(&self, w: WorldView) -> WorldView {
        WorldView {
            output: w.output.push(OutputEventView::Message { text: self.message@ }),
            ..w
        }
    }

    open spec fn apply_error(&self, w: WorldView) -> ModuleErrorView {
        // Apply never fails; no error is ever reported.
        ModuleErrorView::AccessDenied { path: Seq::empty() }
    }

    open spec fn can_undo(&self, w: WorldView) -> bool {
        true
    }

    open spec fn undone(&self, w: WorldView) -> WorldView {
        w
    }

    open spec fn undo_error(&self, w: WorldView) -> ModuleErrorView {
        // Undo never fails; no error is ever reported.
        ModuleErrorView::AccessDenied { path: Seq::empty() }
    }

    open spec fn safety(&self) -> UndoSafety {
        UndoSafety::Safe
    }

    open spec fn task_state(&self, w: WorldView) -> TaskState {
        TaskState::Stateless
    }

    fn apply(&self, w: &mut World) -> (r: Result<(), ModuleError>) {
        w.emit(OutputEvent::Message { text: self.message.clone() });
        Ok(())
    }

    fn undo(&self, w: &mut World) -> (r: Result<(), ModuleError>) {
        Ok(())
    }

    fn undo_safety(&self) -> (s: UndoSafety) {
        UndoSafety::Safe
    }

    fn state(&self, w: &World) -> (r: Result<TaskState, ModuleError>) {
        Ok(TaskState::Stateless)
    }

    proof fn apply_idempotent(&self, w: WorldView) {
    }

    proof fn undo_reverts(&self, w: WorldView) {
    }

    proof fn undo_noop(&self, w: WorldView) {
    }
}

/// A module that ensures a file exists at `path`; undo removes it.
#[derive(Clone, Debug, PartialEq, Eq)]
pub struct File {
    pub path: String,
}

/// The mathematical value of a [`File`] module.
pub struct FileView {
    pub path: Seq<char>,
}

impl View for File {
    type V = FileView;

    open spec fn view(&self) -> FileView {
        FileView { path: self.path@ }
    }
}

impl Module for File {
    open spec fn can_apply(&self, w: WorldView) -> bool {
        !w.denied.contains(self.path@)
    }

    open spec fn applied(&self, w: WorldView) -> WorldView {
        WorldView {
            files: w.files.insert(self.path@),
            output: w.output.push(OutputEventView::FileCreated { path: self.path@ }),
            ..w
        }
    }

    open spec fn apply_error(&self, w: WorldView) -> ModuleErrorView {
        ModuleErrorView::AccessDenied { path: self.path@ }
    }

    open spec fn can_undo(&self, w: WorldView) -> bool {
        w.files.contains(self.path@) ==> !w.denied.contains(self.path@)
    }

    open spec fn undone(&self, w: WorldView) -> WorldView {
        if w.files.contains(self.path@) {
            WorldView {
                files: w.files.remove(self.path@),
                output: w.output.push(OutputEventView::FileRemoved { path: self.path@ }),
                ..w
            }
        } else {
            w
        }
    }

    open spec fn undo_error(&self, w: WorldView) -> ModuleErrorView {
        ModuleErrorView::AccessDenied { path: self.path@ }
    }

    open spec fn safety(&self) -> UndoSafety {
        UndoSafety::Safe
    }

    open spec fn task_state(&self, w: WorldView) -> TaskState {
        if w.files.contains(self.path@) {
            TaskState::Applied
        } else {
            TaskState::NotApplied
        }
    }

    fn apply(&self, w: &mut World) -> (r: Result<(), ModuleError>) {
        if w.is_denied(&self.path) {
            return Err(ModuleError::AccessDenied { path: self.path.clone() });
        }
        w.mark_present(&self.path);
        w.emit(OutputEvent::FileCreated { path: self.path.clone() });
        Ok(())
    }

    fn undo(&self, w: &mut World) -> (r: Result<(), ModuleError>) {
        if !w.has_file(&self.path) {
            return Ok(());
        }
        if w.is_denied(&self.path) {
            return Err(ModuleError::AccessDenied { path: self.path.clone() });
        }
        w.mark_absent(&self.path);
        w.emit(OutputEvent::FileRemoved { path: self.path.clone() });
        Ok(())
    }

    fn undo_safety(&self) -> (s: UndoSafety) {
        UndoSafety::Safe
    }

    fn state(&self, w: &World) -> (r: Result<TaskState, ModuleError>) {
        if w.has_file(&self.path) {
            Ok(TaskState::Applied)
        } else {
            Ok(TaskState::NotApplied)
        }
    }

    proof fn apply_idempotent(&self, w: WorldView) {
    }

    proof fn undo_reverts(&self, w: WorldView) {
    }

    proof fn undo_noop(&self, w: WorldView) {
    }
}

/// One bound module instance: the closed set of module variants a task can
/// target, dispatching each capability operation to its variant.
#[derive(Clone, Debug, PartialEq, Eq)]
pub enum ModuleInstance {
    Echo(Echo),
    File(File),
}

/// The mathematical value of a [`ModuleInstance`].
pub enum ModuleInstanceView {
    Echo(EchoView),
    File(FileView),
}

impl View for ModuleInstance {
    type V = ModuleInstanceView;

    open spec fn view(&self) -> ModuleInstanceView {
        match self {
            ModuleInstance::Echo(m) => ModuleInstanceView::Echo(m@),
            ModuleInstance::File(m) => ModuleInstanceView::File(m@),
        }
    }
}

impl Module for ModuleInstance {
    open spec fn can_apply(&self, w: WorldView) -> bool {
        match self {
            ModuleInstance::Echo(m) => m.can_apply(w),
            ModuleInstance::File(m) => m.can_apply(w),
        }
    }

    open spec fn applied(&self, w: WorldView) -> WorldView {
        match self {
            ModuleInstance::Echo(m) => m.applied(w),
            ModuleInstance::File(m) => m.applied(w),
        }
    }

    open spec fn apply_error(&self, w: WorldView) -> ModuleErrorView {
        match self {
            ModuleInstance::Echo(m) => m.apply_error(w),
            ModuleInstance::File(m) => m.apply_error(w),
        }
    }

    open spec fn can_undo(&self, w: WorldView) -> bool {
        match self {
            ModuleInstance::Echo(m) => m.can_undo(w),
            ModuleInstance::File(m) => m.can_undo(w),
        }
    }

    open spec fn undone(&self, w: WorldView) -> WorldView {
        match self {
            ModuleInstance::Echo(m) => m.undone(w),
            ModuleInstance::File(m) => m.undone(w),
        }
    }

    open spec fn undo_error(&self, w: WorldView) -> ModuleErrorView {
        match self {
            ModuleInstance::Echo(m) => m.undo_error(w),
            ModuleInstance::File(m) => m.undo_error(w),
        }
    }

    open spec fn safety(&self) -> UndoSafety {
        match self {
            ModuleInstance::Echo(m) => m.safety(),
            ModuleInstance::File(m) => m.safety(),
        }
    }

    open spec fn task_state(&self, w: WorldView) -> TaskState {
        match self {
            ModuleInstance::Echo(m) => m.task_state(w),
            ModuleInstance::File(m) => m.task_state(w),
        }
    }

    fn apply(&self, w: &mut World) -> (r: Result<(), ModuleError>) {
        match self {
            ModuleInstance::Echo(m) => m.apply(w),
            ModuleInstance::File(m) => m.apply(w),
        }
    }

    fn undo(&self, w: &mut World) -> (r: Result<(), ModuleError>) {
        match self {
            ModuleInstance::Echo(m) => m.undo(w),
            ModuleInstance::File(m) => m.undo(w),
        }
    }

    fn undo_safety(&self) -> (s: UndoSafety) {
        match self {
            ModuleInstance::Echo(m) => m.undo_safety(),
            ModuleInstance::File(m) => m.undo_safety(),
        }
    }

    fn state(&self, w: &World) -> (r: Result<TaskState, ModuleError>) {
        match self {
            ModuleInstance::Echo(m) => m.state(w),
            ModuleInstance::File(m) => m.state(w),
        }
    }

    proof fn apply_idempotent(&self, w: WorldView) {
        match self {
            ModuleInstance::Echo(m) => m.apply_idempotent(w),
            ModuleInstance::File(m) => m.apply_idempotent(w),
        }
    }

    proof fn undo_reverts(&self, w: WorldView) {
        match self {
            ModuleInstance::Echo(m) => m.undo_reverts(w),
            ModuleInstance::File(m) => m.undo_reverts(w),
        }
    }

    proof fn undo_noop(&self, w: WorldView) {
        match self {
            ModuleInstance::Echo(m) => m.undo_noop(w),
            ModuleInstance::File(m) => m.undo_noop(w),
        }
    }
}

} // verus!
