//! The task compiler: turns a raw declarative configuration into a validated,
//! executable task set, or fails before any task runs.
//!
//! Validation is eager and total: module-type names are resolved, module
//! options are validated by the module's constructor, task options are
//! decoded, and duplicate task names reject the whole compilation — all
//! before any module operation is invoked.

use vstd::prelude::*;

use crate::options::{lookup, OptionFieldView, OptionRecord, OptionValue, OptionValueView};
use crate::registry::{resolve_of, Registry, RegistryEntryView, ResolveError, ResolveErrorView};
use crate::task::{Task, TaskOpts, TaskView};

verus! {

/// One task declaration of a configuration: a task name bound to a
/// module-type name, the module's options and optional task options.
#[derive(Clone, Debug, PartialEq, Eq)]
pub struct ConfigEntry {
    pub name: String,
    pub module: String,
    pub module_options: OptionRecord,
    pub opts: Option<OptionRecord>,
}

/// The mathematical value of a [`ConfigEntry`].
pub struct ConfigEntryView {
    pub name: Seq<char>,
    pub module: Seq<char>,
    pub module_options: Seq<OptionFieldView>,
    pub opts: Option<Seq<OptionFieldView>>,
}

impl View for ConfigEntry {
    type V = ConfigEntryView;

    open spec fn view(&self) -> ConfigEntryView {
        ConfigEntryView {
            name: self.name@,
            module: self.module@,
            module_options: self.module_options@,
            opts: match self.opts {
                Some(record) => Some(record@),
                None => None,
            },
        }
    }
}

/// A raw declarative configuration, in its own declared order.  Authored
/// externally; the compiler treats it as untrusted input.
#[derive(Clone, Debug, PartialEq, Eq)]
pub struct Configuration {
    pub entries: Vec<ConfigEntry>,
}

impl View for Configuration {
    type V = Seq<ConfigEntryView>;

    open spec fn view(&self) -> Seq<ConfigEntryView> {
        self.entries@.map_values(|e: ConfigEntry| e@)
    }
}

/// Why a configuration failed to compile.  Always attributed to the
/// offending task name(s).
#[derive(Clone, Debug, PartialEq, Eq)]
pub enum CompileError {
    /// The named task's module-type name or module options were rejected.
    Resolve { task: String, error: ResolveError },
    /// The named task's `opts` record does not have the shape of task
    /// options.
    MalformedOpts { task: String },
    /// The same task name is declared more than once; every duplicated name
    /// is listed, once each, in the order its second declaration appears.
    DuplicateNames { names: Vec<String> },
}

/// The mathematical value of a [`CompileError`].
pub enum CompileErrorView {
    Resolve { task: Seq<char>, error: ResolveErrorView },
    MalformedOpts { task: Seq<char> },
    DuplicateNames { names: Seq<Seq<char>> },
}

impl View for CompileError {
    type V = CompileErrorView;

    open spec fn view(&self) -> CompileErrorView {
        match self {
            CompileError::Resolve { task, error } => CompileErrorView::Resolve {
                task: task@,
                error: error@,
            },
            CompileError::MalformedOpts { task } => CompileErrorView::MalformedOpts { task: task@ },
            CompileError::DuplicateNames { names } => CompileErrorView::DuplicateNames {
                names: names@.map_values(|n: String| n@),
            },
        }
    }
}

/// The task options a record decodes to: it requires a boolean field
/// `enabled`; any further fields are ignored.
pub open spec fn opts_of(record: Seq<OptionFieldView>) -> Option<TaskOpts> {
    match lookup(record, "enabled"@) {
        Some(OptionValueView::Bool(enabled)) => Some(TaskOpts { enabled }),
        _ => None,
    }
}

/// Decode a record of task options.
pub fn decode_task_opts(record: &OptionRecord) -> (decoded: Option<TaskOpts>)
    ensures
        decoded == opts_of(record@),
{
    let field = "enabled".to_owned();
    match record.get(&field) {
        Some(OptionValue::Bool(enabled)) => Some(TaskOpts { enabled: *enabled }),
        _ => None,
    }
}

/// What compiling one configuration entry produces: the task record, or the
/// failure attributed to that entry's task name.
pub open spec fn compile_entry(
    registry: Seq<RegistryEntryView>,
    entry: ConfigEntryView,
) -> Result<TaskView, CompileErrorView> {
    match resolve_of(registry, entry.module, entry.module_options) {
        Err(e) => Err(CompileErrorView::Resolve { task: entry.name, error: e }),
        Ok(module) => match entry.opts {
            None => Ok(TaskView { name: entry.name, module, opts: TaskOpts { enabled: true } }),
            Some(record) => match opts_of(record) {
                None => Err(CompileErrorView::MalformedOpts { task: entry.name }),
                Some(opts) => Ok(TaskView { name: entry.name, module, opts }),
            },
        },
    }
}

/// What compiling the entries in order produces: the task records, or the
/// failure of the earliest invalid entry.
pub open spec fn compile_entries(
    registry: Seq<RegistryEntryView>,
    entries: Seq<ConfigEntryView>,
) -> Result<Seq<TaskView>, CompileErrorView>
    decreases entries.len(),
{
    if entries.len() == 0 {
        Ok(Seq::empty())
    } else {
        match compile_entries(registry, entries.drop_last()) {
            Err(e) => Err(e),
            Ok(tasks) => match compile_entry(registry, entries.last()) {
                Err(e) => Err(e),
                Ok(task) => Ok(tasks.push(task)),
            },
        }
    }
}

/// The declared task names, in declared order.
pub open spec fn names_of(entries: Seq<ConfigEntryView>) -> Seq<Seq<char>> {
    entries.map_values(|e: ConfigEntryView| e.name)
}

/// The names that occur more than once, once each, in the order their second
/// occurrence appears.
pub open spec fn dup_list(names: Seq<Seq<char>>) -> Seq<Seq<char>>
    decreases names.len(),
{
    if names.len() == 0 {
        Seq::empty()
    } else {
        let seen = dup_list(names.drop_last());
        let name = names.last();
        if names.drop_last().contains(name) && !seen.contains(name) {
            seen.push(name)
        } else {
            seen
        }
    }
}

/// Whether `name` occurs at least twice in `names`.
pub open spec fn duplicated(names: Seq<Seq<char>>, name: Seq<char>) -> bool {
    exists|i: int, j: int|
        0 <= i < j < names.len() && names[i] == name && names[j] == name
}

/// One name is listed in the duplicate report exactly when it is declared
/// more than once.
proof fn lemma_dup_list_correct_for(names: Seq<Seq<char>>, name: Seq<char>)
    ensures
        dup_list(names).contains(name) <==> duplicated(names, name),
    decreases names.len(),
{
    broadcast use vstd::seq_lib::lemma_seq_contains_after_push;

    if names.len() > 0 {
        let prefix = names.drop_last();
        lemma_dup_list_correct_for(prefix, name);
        if dup_list(names).contains(name) {
            if dup_list(prefix).contains(name) {
                let (i, j) = choose|i: int, j: int|
                    0 <= i < j < prefix.len() && prefix[i] == name && prefix[j] == name;
                assert(names[i] == name && names[j] == name);
            } else {
                assert(name == names.last());
                let i = choose|i: int| 0 <= i < prefix.len() && #[trigger] prefix[i] == name;
                assert(names[i] == name && names[names.len() - 1] == name);
            }
        }
        if duplicated(names, name) {
            let (i, j) = choose|i: int, j: int|
                0 <= i < j < names.len() && names[i] == name && names[j] == name;
            if j < names.len() - 1 {
                assert(prefix[i] == name && prefix[j] == name);
                assert(duplicated(prefix, name));
                assert(dup_list(prefix).contains(name));
            } else {
                assert(name == names.last());
                assert(prefix[i] == name);
                assert(prefix.contains(name));
                if !dup_list(prefix).contains(name) {
                    assert(dup_list(names) == dup_list(prefix).push(name));
                    assert(dup_list(names).last() == name);
                }
            }
        }
    }
}

/// The duplicate report is sound and complete: a name is listed exactly when
/// it is declared more than once.
pub proof fn lemma_dup_list_correct(names: Seq<Seq<char>>)
    ensures
        forall|name: Seq<char>|
            #[trigger] dup_list(names).contains(name) <==> duplicated(names, name),
{
    assert forall|name: Seq<char>|
        #[trigger] dup_list(names).contains(name) <==> duplicated(names, name) by {
        lemma_dup_list_correct_for(names, name);
    }
}

/// What compiling a configuration against a registry produces: the compiled
/// task set, or the earliest per-entry failure, or the full duplicate-name
/// report.
pub open spec fn compile_of(
    registry: Seq<RegistryEntryView>,
    entries: Seq<ConfigEntryView>,
) -> Result<Seq<TaskView>, CompileErrorView> {
    match compile_entries(registry, entries) {
        Err(e) => Err(e),
        Ok(tasks) => {
            let dups = dup_list(names_of(entries));
            if dups.len() > 0 {
                Err(CompileErrorView::DuplicateNames { names: dups })
            } else {
                Ok(tasks)
            }
        },
    }
}

/// When every entry compiles, the tasks correspond to the entries one to
/// one, in order.
proof fn lemma_compile_entries_ok(
    registry: Seq<RegistryEntryView>,
    entries: Seq<ConfigEntryView>,
)
    requires
        compile_entries(registry, entries) is Ok,
    ensures
        compile_entries(registry, entries)->Ok_0.len() == entries.len(),
        forall|i: int|
            0 <= i < entries.len() ==> compile_entry(registry, #[trigger] entries[i])
                == Ok::<TaskView, CompileErrorView>(compile_entries(registry, entries)->Ok_0[i]),
    decreases entries.len(),
{
    if entries.len() > 0 {
        let prefix = entries.drop_last();
        lemma_compile_entries_ok(registry, prefix);
        assert(forall|i: int| 0 <= i < prefix.len() ==> #[trigger] entries[i] == prefix[i]);
    }
}

/// The compiled-set invariants: a successful compilation yields one task per
/// entry, in declared order, each carrying its entry's task name, and no two
/// tasks share a name.
pub proof fn lemma_compile_ok_invariants(
    registry: Seq<RegistryEntryView>,
    entries: Seq<ConfigEntryView>,
)
    requires
        compile_of(registry, entries) is Ok,
    ensures
        compile_of(registry, entries)->Ok_0.len() == entries.len(),
        forall|i: int|
            0 <= i < entries.len() ==> compile_entry(registry, #[trigger] entries[i])
                == Ok::<TaskView, CompileErrorView>(compile_of(registry, entries)->Ok_0[i]),
        forall|i: int|
            0 <= i < entries.len() ==> (#[trigger] compile_of(registry, entries)->Ok_0[i]).name
                == entries[i].name,
        forall|i: int, j: int|
            0 <= i < j < entries.len() ==> compile_of(registry, entries)->Ok_0[i].name
                != compile_of(registry, entries)->Ok_0[j].name,
{
    lemma_compile_entries_ok(registry, entries);
    let tasks = compile_of(registry, entries)->Ok_0;
    assert forall|i: int| 0 <= i < entries.len() implies (#[trigger] tasks[i]).name
        == entries[i].name by {
        assert(compile_entry(registry, entries[i]) == Ok::<TaskView, CompileErrorView>(tasks[i]));
    }
    lemma_dup_list_correct(names_of(entries));
    assert forall|i: int, j: int|
        0 <= i < j < entries.len() implies tasks[i].name != tasks[j].name by {
        if tasks[i].name == tasks[j].name {
            assert(names_of(entries)[i] == entries[i].name);
            assert(names_of(entries)[j] == entries[j].name);
            assert(duplicated(names_of(entries), entries[i].name));
            assert(dup_list(names_of(entries)).contains(entries[i].name));
        }
    }
}

/// An entry failure in a prefix decides the whole compilation.
proof fn lemma_entries_error_persists(
    registry: Seq<RegistryEntryView>,
    entries: Seq<ConfigEntryView>,
    upto: int,
)
    requires
        0 <= upto <= entries.len(),
        compile_entries(registry, entries.take(upto)) is Err,
    ensures
        compile_entries(registry, entries) == compile_entries(registry, entries.take(upto)),
    decreases entries.len() - upto,
{
    if upto < entries.len() {
        assert(entries.take(upto + 1).drop_last() =~= entries.take(upto));
        assert(entries.take(upto + 1).last() == entries[upto]);
        lemma_entries_error_persists(registry, entries, upto + 1);
    } else {
        assert(entries.take(upto) =~= entries);
    }
}

/// Whether any entry among the first `upto` declares the task name `name`.
fn name_in_prefix(config: &Configuration, upto: usize, name: &String) -> (found: bool)
    requires
        upto <= config@.len(),
    ensures
        found == names_of(config@).take(upto as int).contains(name@),
{
    let mut k: usize = 0;
    while k < upto
        invariant
            0 <= k <= upto <= config@.len(),
            forall|i: int| 0 <= i < k ==> names_of(config@)[i] != name@,
        decreases upto - k,
    {
        if config.entries[k].name == *name {
            proof {
                assert(names_of(config@).take(upto as int)[k as int] == name@);
            }
            return true;
        }
        k = k + 1;
    }
    proof {
        assert forall|i: int| 0 <= i < upto implies names_of(config@).take(upto as int)[i]
            != name@ by {
            assert(names_of(config@).take(upto as int)[i] == names_of(config@)[i]);
        }
    }
    false
}

/// Whether some entry of `v` reads the same as `name`.
fn listed(v: &Vec<String>, name: &String) -> (found: bool)
    ensures
        found == v@.map_values(|s: String| s@).contains(name@),
{
    let mut k: usize = 0;
    while k < v.len()
        invariant
            0 <= k <= v@.len(),
            forall|i: int| 0 <= i < k ==> (#[trigger] v@[i])@ != name@,
        decreases v@.len() - k,
    {
        if v[k] == *name {
            proof {
                assert(v@.map_values(|s: String| s@)[k as int] == name@);
            }
            return true;
        }
        k = k + 1;
    }
    proof {
        let mapped = v@.map_values(|s: String| s@);
        assert forall|i: int| 0 <= i < mapped.len() implies #[trigger] mapped[i] != name@ by {
            assert(mapped[i] == (v@[i])@);
        }
        assert(!mapped.contains(name@));
    }
    false
}

/// Compile a configuration against a registry into a task set.
///
/// Compilation succeeds exactly when every entry resolves and no task name is
/// duplicated; the resulting tasks correspond to the entries, in declared
/// order.  It fails with the earliest entry's failure, attributed to that
/// task's name, or — when every entry is valid — with the full list of
/// duplicated names.  Nothing is applied on failure: compilation never
/// touches a world.
pub fn compile(config: &Configuration, registry: &Registry) -> (compiled: Result<
    Vec<Task>,
    CompileError,
>)
    ensures
        match compiled {
            Ok(tasks) => compile_of(registry@, config@) == Ok::<Seq<TaskView>, CompileErrorView>(
                tasks@.map_values(|t: Task| t@),
            ),
            Err(e) => compile_of(registry@, config@) == Err::<Seq<TaskView>, CompileErrorView>(e@),
        },
{
    let mut tasks: Vec<Task> = Vec::new();
    let mut k: usize = 0;
    proof {
        assert(config@.take(0) =~= Seq::<ConfigEntryView>::empty());
        assert(tasks@.map_values(|t: Task| t@) =~= Seq::<TaskView>::empty());
    }
    while k < config.entries.len()
        invariant
            0 <= k <= config@.len(),
            config@.len() == config.entries@.len(),
            compile_entries(registry@, config@.take(k as int)) == Ok::<
                Seq<TaskView>,
                CompileErrorView,
            >(tasks@.map_values(|t: Task| t@)),
        decreases config@.len() - k,
    {
        let entry = &config.entries[k];
        let ghost prefix = config@.take(k as int);
        let ghost mapped = tasks@.map_values(|t: Task| t@);
        let resolved = match registry.resolve(&entry.module, &entry.module_options) {
            Ok(module) => module,
            Err(error) => {
                let e = CompileError::Resolve { task: entry.name.clone(), error };
                proof {
                    assert(config@.take(k as int + 1).drop_last() =~= prefix);
                    assert(config@.take(k as int + 1).last() == config@[k as int]);
                    assert(compile_entries(registry@, config@.take(k as int + 1)) == Err::<
                        Seq<TaskView>,
                        CompileErrorView,
                    >(e@));
                    lemma_entries_error_persists(registry@, config@, k as int + 1);
                }
                return Err(e);
            },
        };
        let opts = match &entry.opts {
            None => TaskOpts::default(),
            Some(record) => match decode_task_opts(record) {
                Some(opts) => opts,
                None => {
                    let e = CompileError::MalformedOpts { task: entry.name.clone() };
                    proof {
                        assert(config@.take(k as int + 1).drop_last() =~= prefix);
                        assert(config@.take(k as int + 1).last() == config@[k as int]);
                        assert(compile_entries(registry@, config@.take(k as int + 1)) == Err::<
                            Seq<TaskView>,
                            CompileErrorView,
                        >(e@));
                        lemma_entries_error_persists(registry@, config@, k as int + 1);
                    }
                    return Err(e);
                },
            },
        };
        let task = Task { name: entry.name.clone(), module: resolved, opts };
        tasks.push(task);
        proof {
            assert(config@.take(k as int + 1).drop_last() =~= prefix);
            assert(config@.take(k as int + 1).last() == config@[k as int]);
            assert(tasks@.map_values(|t: Task| t@) =~= mapped.push(
                tasks@[tasks@.len() - 1]@,
            ));
        }
        k = k + 1;
    }
    proof {
        assert(config@.take(config@.len() as int) =~= config@);
    }

    // Every entry is valid; reject the whole set if any name is duplicated,
    // reporting all duplicated names.
    let mut dups: Vec<String> = Vec::new();
    let mut k: usize = 0;
    proof {
        assert(names_of(config@).take(0) =~= Seq::<Seq<char>>::empty());
        assert(dups@.map_values(|s: String| s@) =~= Seq::<Seq<char>>::empty());
    }
    while k < config.entries.len()
        invariant
            0 <= k <= config@.len(),
            config@.len() == config.entries@.len(),
            dups@.map_values(|s: String| s@) == dup_list(names_of(config@).take(k as int)),
        decreases config@.len() - k,
    {
        let name = &config.entries[k].name;
        let ghost listed_before = dups@.map_values(|s: String| s@);
        let seen = name_in_prefix(config, k, name);
        if seen {
            let already = listed(&dups, name);
            if !already {
                dups.push(name.clone());
                proof {
                    assert(dups@.map_values(|s: String| s@) =~= listed_before.push(
                        (dups@[dups@.len() - 1])@,
                    ));
                }
            }
        }
        proof {
            let full = names_of(config@).take(k as int + 1);
            assert(full.drop_last() =~= names_of(config@).take(k as int));
            assert(full.last() == names_of(config@)[k as int]);
            assert(names_of(config@)[k as int] == name@);
        }
        k = k + 1;
    }
    proof {
        assert(names_of(config@).take(config@.len() as int) =~= names_of(config@));
    }
    if dups.len() > 0 {
        Err(CompileError::DuplicateNames { names: dups })
    } else {
        Ok(tasks)
    }
}

} // verus!
