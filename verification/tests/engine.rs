use nucleos::compiler::{compile, CompileError, ConfigEntry, Configuration};
use nucleos::module::{Echo, File, Module, ModuleError, ModuleInstance};
use nucleos::options::{OptionRecord, OptionValue};
use nucleos::registry::{ModuleKind, Registry, ResolveError};
use nucleos::runner::{run_apply, run_status, run_undo, Outcome};
use nucleos::task::{Task, TaskOpts, TaskState, UndoMode, UndoSafety};
use nucleos::world::{OutputEvent, World};

fn record(pairs: &[(&str, OptionValue)]) -> OptionRecord {
    let mut record = OptionRecord::new();
    for (name, value) in pairs {
        record.push((*name).to_owned(), value.clone());
    }
    record
}

fn entry(name: &str, module: &str, options: &[(&str, OptionValue)]) -> ConfigEntry {
    ConfigEntry {
        name: name.to_owned(),
        module: module.to_owned(),
        module_options: record(options),
        opts: None,
    }
}

fn text(s: &str) -> OptionValue {
    OptionValue::Text(s.to_owned())
}

/// The example configuration: `greet` echoes "hi"; `marker` ensures a file at
/// /tmp/m but is disabled.
fn example_config() -> Configuration {
    let mut marker = entry("marker", "file", &[("path", text("/tmp/m"))]);
    marker.opts = Some(record(&[("enabled", OptionValue::Bool(false))]));
    Configuration { entries: vec![entry("greet", "echo", &[("message", text("hi"))]), marker] }
}

#[test]
fn compile_binds_modules_and_opts() {
    let registry = Registry::builtin();
    let tasks = compile(&example_config(), &registry).unwrap();
    assert_eq!(tasks.len(), 2);
    assert_eq!(tasks[0].name, "greet");
    assert_eq!(
        tasks[0].module,
        ModuleInstance::Echo(Echo { message: "hi".to_owned() })
    );
    assert!(tasks[0].opts.enabled);
    assert_eq!(tasks[1].name, "marker");
    assert_eq!(tasks[1].module, ModuleInstance::File(File { path: "/tmp/m".to_owned() }));
    assert!(!tasks[1].opts.enabled);
}

#[test]
fn apply_runs_enabled_and_skips_disabled() {
    let registry = Registry::builtin();
    let tasks = compile(&example_config(), &registry).unwrap();
    let mut world = World::new();
    let records = run_apply(&tasks, &mut world);

    assert_eq!(records.len(), 2);
    assert_eq!(records[0].task, "greet");
    assert_eq!(records[0].outcome, Outcome::Applied);
    assert_eq!(records[1].task, "marker");
    assert_eq!(records[1].outcome, Outcome::SkippedDisabled);

    assert_eq!(world.output(), &vec![OutputEvent::Message { text: "hi".to_owned() }]);
    assert!(!world.has_file(&"/tmp/m".to_owned()));
}

#[test]
fn status_reports_every_task_even_disabled() {
    let registry = Registry::builtin();
    let tasks = compile(&example_config(), &registry).unwrap();
    let mut world = World::new();
    run_apply(&tasks, &mut world);

    let statuses = run_status(&tasks, &world);
    assert_eq!(statuses.len(), 2);
    assert_eq!(statuses[0].task, "greet");
    assert_eq!(statuses[0].state, TaskState::Stateless);
    assert_eq!(statuses[1].task, "marker");
    assert_eq!(statuses[1].state, TaskState::NotApplied);
}

#[test]
fn undo_removes_applied_file() {
    let registry = Registry::builtin();
    let config = Configuration {
        entries: vec![entry("marker", "file", &[("path", text("/tmp/m"))])],
    };
    let tasks = compile(&config, &registry).unwrap();
    let mut world = World::new();

    run_apply(&tasks, &mut world);
    assert!(world.has_file(&"/tmp/m".to_owned()));
    let statuses = run_status(&tasks, &world);
    assert_eq!(statuses[0].state, TaskState::Applied);

    let records = run_undo(&tasks, UndoMode::Safe, &mut world);
    assert_eq!(records[0].task, "marker");
    assert_eq!(records[0].outcome, Outcome::Undone);
    assert!(!world.has_file(&"/tmp/m".to_owned()));
    let statuses = run_status(&tasks, &world);
    assert_eq!(statuses[0].state, TaskState::NotApplied);

    assert_eq!(
        world.output(),
        &vec![
            OutputEvent::FileCreated { path: "/tmp/m".to_owned() },
            OutputEvent::FileRemoved { path: "/tmp/m".to_owned() },
        ]
    );
}

#[test]
fn apply_is_idempotent() {
    let module = File { path: "/tmp/idem".to_owned() };
    let mut world = World::new();
    assert!(module.apply(&mut world).is_ok());
    let first = module.state(&world).unwrap();
    assert!(module.apply(&mut world).is_ok());
    let second = module.state(&world).unwrap();
    assert_eq!(first, TaskState::Applied);
    assert_eq!(second, first);
}

#[test]
fn undo_without_apply_changes_nothing() {
    let module = File { path: "/tmp/none".to_owned() };
    let mut world = World::new();
    assert!(module.undo(&mut world).is_ok());
    assert_eq!(module.state(&world).unwrap(), TaskState::NotApplied);
    assert_eq!(world.output(), &Vec::new());

    let echo = Echo { message: "quiet".to_owned() };
    assert!(echo.undo(&mut world).is_ok());
    assert_eq!(echo.state(&world).unwrap(), TaskState::Stateless);
    assert_eq!(world.output(), &Vec::new());
}

#[test]
fn module_failure_is_isolated_to_its_task() {
    let registry = Registry::builtin();
    let config = Configuration {
        entries: vec![
            entry("blocked", "file", &[("path", text("/tmp/ro"))]),
            entry("greet", "echo", &[("message", text("still runs"))]),
        ],
    };
    let tasks = compile(&config, &registry).unwrap();
    let mut world = World::new();
    world.deny(&"/tmp/ro".to_owned());

    let records = run_apply(&tasks, &mut world);
    assert_eq!(
        records[0].outcome,
        Outcome::Failed { error: ModuleError::AccessDenied { path: "/tmp/ro".to_owned() } }
    );
    assert_eq!(records[1].outcome, Outcome::Applied);
    assert!(!world.has_file(&"/tmp/ro".to_owned()));
    assert_eq!(world.output(), &vec![OutputEvent::Message { text: "still runs".to_owned() }]);
}

#[test]
fn undo_failure_is_recorded_and_run_continues() {
    let registry = Registry::builtin();
    let config = Configuration {
        entries: vec![
            entry("stuck", "file", &[("path", text("/tmp/stuck"))]),
            entry("free", "file", &[("path", text("/tmp/free"))]),
        ],
    };
    let tasks = compile(&config, &registry).unwrap();
    let mut world = World::new();
    run_apply(&tasks, &mut world);
    world.deny(&"/tmp/stuck".to_owned());

    let records = run_undo(&tasks, UndoMode::Risky, &mut world);
    assert_eq!(
        records[0].outcome,
        Outcome::Failed { error: ModuleError::AccessDenied { path: "/tmp/stuck".to_owned() } }
    );
    assert_eq!(records[1].outcome, Outcome::Undone);
    assert!(world.has_file(&"/tmp/stuck".to_owned()));
    assert!(!world.has_file(&"/tmp/free".to_owned()));
}

#[test]
fn one_invalid_task_fails_whole_compilation() {
    let registry = Registry::builtin();
    let mut entries = Vec::new();
    entries.push(entry("bad", "bogus", &[]));
    for i in 0..9 {
        entries.push(entry(&format!("ok{i}"), "echo", &[("message", text("fine"))]));
    }
    let err = compile(&Configuration { entries }, &registry).unwrap_err();
    assert_eq!(
        err,
        CompileError::Resolve {
            task: "bad".to_owned(),
            error: ResolveError::UnknownModule { module: "bogus".to_owned() },
        }
    );
}

#[test]
fn earliest_invalid_task_is_reported() {
    let registry = Registry::builtin();
    let config = Configuration {
        entries: vec![
            entry("ok", "echo", &[("message", text("fine"))]),
            entry("first_bad", "echo", &[]),
            entry("second_bad", "bogus", &[]),
        ],
    };
    let err = compile(&config, &registry).unwrap_err();
    assert_eq!(
        err,
        CompileError::Resolve {
            task: "first_bad".to_owned(),
            error: ResolveError::MissingOption { field: "message".to_owned() },
        }
    );
}

#[test]
fn duplicate_task_name_fails_compilation() {
    let registry = Registry::builtin();
    let config = Configuration {
        entries: vec![
            entry("greet", "echo", &[("message", text("hi"))]),
            entry("greet", "echo", &[("message", text("again"))]),
        ],
    };
    let err = compile(&config, &registry).unwrap_err();
    assert_eq!(err, CompileError::DuplicateNames { names: vec!["greet".to_owned()] });
}

#[test]
fn all_duplicate_names_are_reported_once_each() {
    let registry = Registry::builtin();
    let config = Configuration {
        entries: vec![
            entry("a", "echo", &[("message", text("1"))]),
            entry("b", "echo", &[("message", text("2"))]),
            entry("a", "echo", &[("message", text("3"))]),
            entry("b", "echo", &[("message", text("4"))]),
            entry("a", "echo", &[("message", text("5"))]),
        ],
    };
    let err = compile(&config, &registry).unwrap_err();
    assert_eq!(
        err,
        CompileError::DuplicateNames { names: vec!["a".to_owned(), "b".to_owned()] }
    );
}

#[test]
fn malformed_module_option_is_named() {
    let registry = Registry::builtin();
    let config = Configuration {
        entries: vec![entry("greet", "echo", &[("message", OptionValue::Bool(true))])],
    };
    let err = compile(&config, &registry).unwrap_err();
    assert_eq!(
        err,
        CompileError::Resolve {
            task: "greet".to_owned(),
            error: ResolveError::MalformedOption { field: "message".to_owned() },
        }
    );
}

#[test]
fn missing_file_path_is_named() {
    let registry = Registry::builtin();
    let config = Configuration { entries: vec![entry("marker", "file", &[])] };
    let err = compile(&config, &registry).unwrap_err();
    assert_eq!(
        err,
        CompileError::Resolve {
            task: "marker".to_owned(),
            error: ResolveError::MissingOption { field: "path".to_owned() },
        }
    );
}

#[test]
fn malformed_task_opts_fail_compilation() {
    let registry = Registry::builtin();
    let mut bad = entry("greet", "echo", &[("message", text("hi"))]);
    bad.opts = Some(record(&[("enabled", text("yes"))]));
    let err = compile(&Configuration { entries: vec![bad] }, &registry).unwrap_err();
    assert_eq!(err, CompileError::MalformedOpts { task: "greet".to_owned() });

    let mut empty_opts = entry("greet", "echo", &[("message", text("hi"))]);
    empty_opts.opts = Some(record(&[]));
    let err = compile(&Configuration { entries: vec![empty_opts] }, &registry).unwrap_err();
    assert_eq!(err, CompileError::MalformedOpts { task: "greet".to_owned() });
}

#[test]
fn absent_opts_default_to_enabled() {
    assert!(TaskOpts::default().enabled);
    let registry = Registry::builtin();
    let config = Configuration {
        entries: vec![entry("greet", "echo", &[("message", text("hi"))])],
    };
    let tasks = compile(&config, &registry).unwrap();
    assert!(tasks[0].opts.enabled);
}

#[test]
fn disabled_task_is_never_undone() {
    let registry = Registry::builtin();
    let mut marker = entry("marker", "file", &[("path", text("/tmp/keep"))]);
    marker.opts = Some(record(&[("enabled", OptionValue::Bool(false))]));
    let tasks = compile(&Configuration { entries: vec![marker] }, &registry).unwrap();

    let mut world = World::new();
    world.mark_present(&"/tmp/keep".to_owned());
    let records = run_undo(&tasks, UndoMode::Risky, &mut world);
    assert_eq!(records[0].outcome, Outcome::SkippedDisabled);
    assert!(world.has_file(&"/tmp/keep".to_owned()));
}

#[test]
fn registered_alias_resolves_to_same_constructor() {
    let mut registry = Registry::builtin();
    registry.register("print".to_owned(), ModuleKind::Echo);
    let config = Configuration {
        entries: vec![entry("greet", "print", &[("message", text("hi"))])],
    };
    let tasks = compile(&config, &registry).unwrap();
    assert_eq!(tasks[0].module, ModuleInstance::Echo(Echo { message: "hi".to_owned() }));
}

#[test]
fn first_matching_option_field_wins() {
    let record = record(&[
        ("message", text("first")),
        ("message", text("second")),
        ("count", OptionValue::Int(3)),
    ]);
    assert_eq!(record.get(&"message".to_owned()), Some(&text("first")));
    assert_eq!(record.get(&"count".to_owned()), Some(&OptionValue::Int(3)));
    assert_eq!(record.get(&"absent".to_owned()), None);
}

#[test]
fn undo_safety_of_builtins_is_safe() {
    let echo = Echo { message: "hi".to_owned() };
    let file = File { path: "/tmp/m".to_owned() };
    assert_eq!(echo.undo_safety(), UndoSafety::Safe);
    assert_eq!(file.undo_safety(), UndoSafety::Safe);
}

#[test]
fn empty_configuration_compiles_and_runs() {
    let registry = Registry::builtin();
    let tasks: Vec<Task> = compile(&Configuration { entries: Vec::new() }, &registry).unwrap();
    assert!(tasks.is_empty());
    let mut world = World::new();
    assert!(run_apply(&tasks, &mut world).is_empty());
    assert!(run_undo(&tasks, UndoMode::Safe, &mut world).is_empty());
    assert!(run_status(&tasks, &world).is_empty());
    assert!(world.output().is_empty());
}
