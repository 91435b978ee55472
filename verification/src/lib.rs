//! A minimal declarative configuration-convergence engine.
//!
//! A configuration names a set of tasks, each bound to a module (a unit of
//! idempotent system change) and per-task options.  The compiler turns such a
//! configuration into a validated task set; the runner walks the task set for
//! apply, undo and status, with per-task isolation, enable gating and
//! undo-safety enforcement.  Modules act on a [`world::World`], an explicit
//! record of the machine state they may observe or change.

pub mod compiler;
pub mod module;
pub mod options;
pub mod registry;
pub mod runner;
pub mod task;
pub mod world;
