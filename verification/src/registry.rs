//! The module registry: a mapping from a module-type name to a constructor
//! that validates type-specific options and produces a module instance.
//!
//! The registry is populated once at startup — the built-ins plus any
//! statically linked extensions — and read-only afterwards.

use vstd::prelude::*;

use crate::module::{Echo, EchoView, File, FileView, ModuleInstance, ModuleInstanceView};
use crate::options::{lookup, OptionFieldView, OptionRecord, OptionValue, OptionValueView};

verus! {

/// The constructor a registry entry is bound to: one of the statically known
/// module variants.
#[derive(Clone, Copy, Debug, PartialEq, Eq, Structural)]
pub enum ModuleKind {
    Echo,
    File,
}

/// Why a module-type name and an option record could not be resolved to a
/// module instance.
#[derive(Clone, Debug, PartialEq, Eq)]
pub enum ResolveError {
    /// The module-type name is not registered.
    UnknownModule { module: String },
    /// The named option is required by the module type but absent.
    MissingOption { field: String },
    /// The named option is present but has the wrong shape.
    MalformedOption { field: String },
}

/// The mathematical value of a [`ResolveError`].
pub enum ResolveErrorView {
    UnknownModule { module: Seq<char> },
    MissingOption { field: Seq<char> },
    MalformedOption { field: Seq<char> },
}

impl View for ResolveError {
    type V = ResolveErrorView;

    open spec fn view(&self) -> ResolveErrorView {
        match self {
            ResolveError::UnknownModule { module } => ResolveErrorView::UnknownModule {
                module: module@,
            },
            ResolveError::MissingOption { field } => ResolveErrorView::MissingOption {
                field: field@,
            },
            ResolveError::MalformedOption { field } => ResolveErrorView::MalformedOption {
                field: field@,
            },
        }
    }
}

/// One registered module type.
#[derive(Clone, Debug, PartialEq, Eq)]
pub struct RegistryEntry {
    pub name: String,
    pub kind: ModuleKind,
}

/// The mathematical value of a [`RegistryEntry`].
pub struct RegistryEntryView {
    pub name: Seq<char>,
    pub kind: ModuleKind,
}

impl View for RegistryEntry {
    type V = RegistryEntryView;

    open spec fn view(&self) -> RegistryEntryView {
        RegistryEntryView { name: self.name@, kind: self.kind }
    }
}

/// The constructor bound to the first entry named `module`, if any.
pub open spec fn kind_of(entries: Seq<RegistryEntryView>, module: Seq<char>) -> Option<ModuleKind>
    decreases entries.len(),
{
    if entries.len() == 0 {
        None
    } else if entries[0].name == module {
        Some(entries[0].kind)
    } else {
        kind_of(entries.drop_first(), module)
    }
}

/// What the echo constructor produces: it requires a text option `message`.
pub open spec fn echo_of(options: Seq<OptionFieldView>) -> Result<
    ModuleInstanceView,
    ResolveErrorView,
> {
    match lookup(options, "message"@) {
        Some(OptionValueView::Text(text)) => Ok(
            ModuleInstanceView::Echo(EchoView { message: text }),
        ),
        Some(_) => Err(ResolveErrorView::MalformedOption { field: "message"@ }),
        None => Err(ResolveErrorView::MissingOption { field: "message"@ }),
    }
}

/// What the file constructor produces: it requires a text option `path`.
pub open spec fn file_of(options: Seq<OptionFieldView>) -> Result<
    ModuleInstanceView,
    ResolveErrorView,
> {
    match lookup(options, "path"@) {
        Some(OptionValueView::Text(text)) => Ok(ModuleInstanceView::File(FileView { path: text })),
        Some(_) => Err(ResolveErrorView::MalformedOption { field: "path"@ }),
        None => Err(ResolveErrorView::MissingOption { field: "path"@ }),
    }
}

/// What the constructor bound to `kind` produces from `options`.
pub open spec fn construct_of(kind: ModuleKind, options: Seq<OptionFieldView>) -> Result<
    ModuleInstanceView,
    ResolveErrorView,
> {
    match kind {
        ModuleKind::Echo => echo_of(options),
        ModuleKind::File => file_of(options),
    }
}

/// What resolving `module` with `options` against the registry produces.
pub open spec fn resolve_of(
    entries: Seq<RegistryEntryView>,
    module: Seq<char>,
    options: Seq<OptionFieldView>,
) -> Result<ModuleInstanceView, ResolveErrorView> {
    match kind_of(entries, module) {
        None => Err(ResolveErrorView::UnknownModule { module }),
        Some(kind) => construct_of(kind, options),
    }
}

/// The module registry; resolution takes the first entry with a matching
/// name.
pub struct Registry {
    entries: Vec<RegistryEntry>,
}

impl View for Registry {
    type V = Seq<RegistryEntryView>;

    closed spec fn view(&self) -> Seq<RegistryEntryView> {
        self.entries@.map_values(|e: RegistryEntry| e@)
    }
}

impl Registry {
    /// A registry with nothing registered.
    pub fn new() -> (registry: Registry)
        ensures
            registry@ == Seq::<RegistryEntryView>::empty(),
    {
        let registry = Registry { entries: Vec::new() };
        proof {
            assert(registry@ =~= Seq::<RegistryEntryView>::empty());
        }
        registry
    }

    /// Register the module type `name`, bound to the constructor `kind`.
    pub fn register(&mut self, name: String, kind: ModuleKind)
        ensures
            final(self)@ == old(self)@.push(RegistryEntryView { name: name@, kind }),
    {
        let ghost oldv = self.entries@;
        self.entries.push(RegistryEntry { name, kind });
        proof {
            assert(self@ =~= old(self)@.push(self.entries@[oldv.len() as int]@));
        }
    }

    /// The registry holding the built-in module types `echo` and `file`.
    pub fn builtin() -> (registry: Registry)
        ensures
            registry@ == seq![
                RegistryEntryView { name: "echo"@, kind: ModuleKind::Echo },
                RegistryEntryView { name: "file"@, kind: ModuleKind::File },
            ],
    {
        let mut registry = Registry::new();
        registry.register("echo".to_owned(), ModuleKind::Echo);
        registry.register("file".to_owned(), ModuleKind::File);
        proof {
            assert(registry@ =~= seq![
                RegistryEntryView { name: "echo"@, kind: ModuleKind::Echo },
                RegistryEntryView { name: "file"@, kind: ModuleKind::File },
            ]);
        }
        registry
    }

    /// Resolve the module-type name `module` with `options` to a module
    /// instance, or say exactly why that fails.
    pub fn resolve(&self, module: &String, options: &OptionRecord) -> (resolved: Result<
        ModuleInstance,
        ResolveError,
    >)
        ensures
            match resolved {
                Ok(instance) => resolve_of(self@, module@, options@) == Ok::<
                    ModuleInstanceView,
                    ResolveErrorView,
                >(instance@),
                Err(e) => resolve_of(self@, module@, options@) == Err::<
                    ModuleInstanceView,
                    ResolveErrorView,
                >(e@),
            },
    {
        proof {
            assert(self@.skip(0) =~= self@);
        }
        match self.find_kind(module, 0) {
            None => Err(ResolveError::UnknownModule { module: module.clone() }),
            Some(kind) => Self::construct(kind, options),
        }
    }

    /// The constructor bound to the first entry named `module`, searching at
    /// or after position `start`.
    fn find_kind(&self, module: &String, start: usize) -> (found: Option<ModuleKind>)
        requires
            start <= self@.len(),
        ensures
            found == kind_of(self@.skip(start as int), module@),
        decreases self@.len() - start,
    {
        if start == self.entries.len() {
            proof {
                assert(self@.skip(start as int).len() == 0);
            }
            None
        } else if self.entries[start].name == *module {
            proof {
                assert(self@.skip(start as int)[0] == self@[start as int]);
            }
            Some(self.entries[start].kind)
        } else {
            let found = self.find_kind(module, start + 1);
            proof {
                assert(self@.skip(start as int)[0] == self@[start as int]);
                assert(self@.skip(start as int).drop_first() =~= self@.skip(start as int + 1));
            }
            found
        }
    }

    /// Run the constructor bound to `kind` on `options`.
    fn construct(kind: ModuleKind, options: &OptionRecord) -> (constructed: Result<
        ModuleInstance,
        ResolveError,
    >)
        ensures
            match constructed {
                Ok(instance) => construct_of(kind, options@) == Ok::<
                    ModuleInstanceView,
                    ResolveErrorView,
                >(instance@),
                Err(e) => construct_of(kind, options@) == Err::<
                    ModuleInstanceView,
                    ResolveErrorView,
                >(e@),
            },
    {
        match kind {
            ModuleKind::Echo => {
                let field = "message".to_owned();
                match options.get(&field) {
                    Some(OptionValue::Text(text)) => Ok(
                        ModuleInstance::Echo(Echo { message: text.clone() }),
                    ),
                    Some(_) => Err(ResolveError::MalformedOption { field }),
                    None => Err(ResolveError::MissingOption { field }),
                }
            },
            ModuleKind::File => {
                let field = "path".to_owned();
                match options.get(&field) {
                    Some(OptionValue::Text(text)) => Ok(
                        ModuleInstance::File(File { path: text.clone() }),
                    ),
                    Some(_) => Err(ResolveError::MalformedOption { field }),
                    None => Err(ResolveError::MissingOption { field }),
                }
            },
        }
    }
}

} // verus!
