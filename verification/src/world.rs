//! An explicit model of the machine state that modules observe and change:
//! which paths currently hold a file, which paths refuse changes, and the
//! console events reported so far.
//!
//! The engine itself never touches the machine; every module effect is a
//! transition on a [`World`], and the embedding program reconciles the final
//! world with the real machine.

use vstd::prelude::*;

verus! {

/// A console event a module reports while converging.
#[derive(Clone, Debug, PartialEq, Eq)]
pub enum OutputEvent {
    /// A plain message printed by a module.
    Message { text: String },
    /// A module reports that it created the file at `path`.
    FileCreated { path: String },
    /// A module reports that it removed the file at `path`.
    FileRemoved { path: String },
}

/// The mathematical value of an [`OutputEvent`].
pub enum OutputEventView {
    Message { text: Seq<char> },
    FileCreated { path: Seq<char> },
    FileRemoved { path: Seq<char> },
}

impl View for OutputEvent {
    type V = OutputEventView;

    open spec fn view(&self) -> OutputEventView {
        match self {
            OutputEvent::Message { text } => OutputEventView::Message { text: text@ },
            OutputEvent::FileCreated { path } => OutputEventView::FileCreated { path: path@ },
            OutputEvent::FileRemoved { path } => OutputEventView::FileRemoved { path: path@ },
        }
    }
}

/// The mathematical value of a [`World`]: the set of paths holding a file,
/// the set of paths that refuse changes, and the events reported so far.
pub struct WorldView {
    pub files: Set<Seq<char>>,
    pub denied: Set<Seq<char>>,
    pub output: Seq<OutputEventView>,
}

/// Whether some entry among the first `n` of `v` reads `q`.
pub open spec fn seq_has(v: Seq<String>, n: int, q: Seq<char>) -> bool {
    exists|i: int| 0 <= i < n && (#[trigger] v[i])@ == q
}

/// The machine state the built-in modules act on.  Constructed empty and
/// grown through its methods; the engine only ever changes it through a
/// module's `apply` or `undo`.
pub struct World {
    files: Vec<String>,
    denied: Vec<String>,
    output: Vec<OutputEvent>,
}

impl View for World {
    type V = WorldView;

    closed spec fn view(&self) -> WorldView {
        WorldView {
            files: Set::new(|p: Seq<char>| seq_has(self.files@, self.files@.len() as int, p)),
            denied: Set::new(|p: Seq<char>| seq_has(self.denied@, self.denied@.len() as int, p)),
            output: self.output@.map_values(|e: OutputEvent| e@),
        }
    }
}

/// Whether some entry of `v` reads the same as `q`.
fn vec_has(v: &Vec<String>, q: &String) -> (found: bool)
    ensures
        found == seq_has(v@, v@.len() as int, q@),
{
    let mut k: usize = 0;
    while k < v.len()
        invariant
            0 <= k <= v@.len(),
            forall|i: int| 0 <= i < k ==> (#[trigger] v@[i])@ != q@,
        decreases v@.len() - k,
    {
        if v[k] == *q {
            assert((v@[k as int])@ == q@);
            return true;
        }
        k = k + 1;
    }
    false
}

/// Appending one entry to a list of paths inserts its reading into the set of
/// readings.
proof fn lemma_push_view(oldv: Seq<String>, newv: Seq<String>, p: Seq<char>)
    requires
        newv.len() == oldv.len() + 1,
        forall|i: int| 0 <= i < oldv.len() ==> newv[i] == oldv[i],
        (newv[oldv.len() as int])@ == p,
    ensures
        Set::new(|q: Seq<char>| seq_has(newv, newv.len() as int, q)) == Set::new(
            |q: Seq<char>| seq_has(oldv, oldv.len() as int, q),
        ).insert(p),
{
    let s_new = Set::new(|q: Seq<char>| seq_has(newv, newv.len() as int, q));
    let s_old = Set::new(|q: Seq<char>| seq_has(oldv, oldv.len() as int, q));
    assert forall|q: Seq<char>| s_new.contains(q) <==> s_old.insert(p).contains(q) by {
        if seq_has(newv, newv.len() as int, q) {
            let i = choose|i: int| 0 <= i < newv.len() && (#[trigger] newv[i])@ == q;
            if i < oldv.len() {
                assert((oldv[i])@ == q);
            } else {
                assert(q == p);
            }
        }
        if seq_has(oldv, oldv.len() as int, q) {
            let i = choose|i: int| 0 <= i < oldv.len() && (#[trigger] oldv[i])@ == q;
            assert((newv[i])@ == q);
        }
        if q == p {
            assert((newv[oldv.len() as int])@ == q);
        }
    }
    assert(s_new =~= s_old.insert(p));
}

impl World {
    /// A world with no files, no denied paths and no output.
    pub fn new() -> (w: World)
        ensures
            w@.files == Set::<Seq<char>>::empty(),
            w@.denied == Set::<Seq<char>>::empty(),
            w@.output == Seq::<OutputEventView>::empty(),
    {
        let w = World { files: Vec::new(), denied: Vec::new(), output: Vec::new() };
        proof {
            assert(w@.files =~= Set::<Seq<char>>::empty());
            assert(w@.denied =~= Set::<Seq<char>>::empty());
            assert(w@.output =~= Seq::<OutputEventView>::empty());
        }
        w
    }

    /// Whether `path` currently holds a file.
    pub fn has_file(&self, path: &String) -> (present: bool)
        ensures
            present == self@.files.contains(path@),
    {
        vec_has(&self.files, path)
    }

    /// Whether the machine refuses changes to `path`.
    pub fn is_denied(&self, path: &String) -> (denied: bool)
        ensures
            denied == self@.denied.contains(path@),
    {
        vec_has(&self.denied, path)
    }

    /// Record that `path` now holds a file.
    pub fn mark_present(&mut self, path: &String)
        ensures
            final(self)@.files == old(self)@.files.insert(path@),
            final(self)@.denied == old(self)@.denied,
            final(self)@.output == old(self)@.output,
    {
        let present = vec_has(&self.files, path);
        if !present {
            let ghost oldv = self.files@;
            self.files.push(path.clone());
            proof {
                lemma_push_view(oldv, self.files@, path@);
            }
        } else {
            proof {
                assert(old(self)@.files.contains(path@));
                assert(self@.files =~= old(self)@.files.insert(path@));
            }
        }
        proof {
            assert(self@.denied =~= old(self)@.denied);
            assert(self@.output =~= old(self)@.output);
        }
    }

    /// Record that `path` no longer holds a file.
    pub fn mark_absent(&mut self, path: &String)
        ensures
            final(self)@.files == old(self)@.files.remove(path@),
            final(self)@.denied == old(self)@.denied,
            final(self)@.output == old(self)@.output,
    {
        let mut kept: Vec<String> = Vec::new();
        let mut k: usize = 0;
        while k < self.files.len()
            invariant
                0 <= k <= self.files@.len(),
                forall|j: int| 0 <= j < kept@.len() ==> (#[trigger] kept@[j])@ != path@,
                forall|j: int|
                    0 <= j < kept@.len() ==> seq_has(
                        self.files@,
                        k as int,
                        (#[trigger] kept@[j])@,
                    ),
                forall|i: int|
                    0 <= i < k ==> ((#[trigger] self.files@[i])@ == path@ || seq_has(
                        kept@,
                        kept@.len() as int,
                        self.files@[i]@,
                    )),
            decreases self.files@.len() - k,
        {
            if !(self.files[k] == *path) {
                let ghost prev = kept@;
                kept.push(self.files[k].clone());
                proof {
                    assert((kept@[prev.len() as int])@ == self.files@[k as int]@);
                    assert forall|j: int|
                        0 <= j < kept@.len() implies seq_has(
                        self.files@,
                        k + 1,
                        (#[trigger] kept@[j])@,
                    ) by {
                        if j < prev.len() {
                            assert(kept@[j] == prev[j]);
                            let i = choose|i: int|
                                0 <= i < k && (#[trigger] self.files@[i])@ == prev[j]@;
                            assert((self.files@[i])@ == kept@[j]@);
                        } else {
                            assert((self.files@[k as int])@ == kept@[j]@);
                        }
                    }
                    assert forall|i: int|
                        0 <= i < k + 1 implies ((#[trigger] self.files@[i])@ == path@ || seq_has(
                        kept@,
                        kept@.len() as int,
                        self.files@[i]@,
                    )) by {
                        if i < k {
                            if (self.files@[i])@ != path@ {
                                let j = choose|j: int|
                                    0 <= j < prev.len() && (#[trigger] prev[j])@
                                        == self.files@[i]@;
                                assert((kept@[j])@ == self.files@[i]@);
                            }
                        } else {
                            assert((kept@[prev.len() as int])@ == self.files@[i]@);
                        }
                    }
                }
            } else {
                proof {
                    assert((self.files@[k as int])@ == path@);
                }
            }
            k = k + 1;
        }
        let ghost oldv = self.files@;
        self.files = kept;
        proof {
            assert forall|q: Seq<char>|
                self@.files.contains(q) <==> old(self)@.files.remove(path@).contains(q) by {
                if seq_has(self.files@, self.files@.len() as int, q) {
                    let j = choose|j: int|
                        0 <= j < self.files@.len() && (#[trigger] self.files@[j])@ == q;
                    assert(seq_has(oldv, oldv.len() as int, q));
                    assert(q != path@);
                }
                if seq_has(oldv, oldv.len() as int, q) && q != path@ {
                    let i = choose|i: int| 0 <= i < oldv.len() && (#[trigger] oldv[i])@ == q;
                    assert(seq_has(self.files@, self.files@.len() as int, q));
                }
            }
            assert(self@.files =~= old(self)@.files.remove(path@));
            assert(self@.denied =~= old(self)@.denied);
            assert(self@.output =~= old(self)@.output);
        }
    }

    /// Record that the machine refuses changes to `path`.
    pub fn deny(&mut self, path: &String)
        ensures
            final(self)@.denied == old(self)@.denied.insert(path@),
            final(self)@.files == old(self)@.files,
            final(self)@.output == old(self)@.output,
    {
        let present = vec_has(&self.denied, path);
        if !present {
            let ghost oldv = self.denied@;
            self.denied.push(path.clone());
            proof {
                lemma_push_view(oldv, self.denied@, path@);
            }
        } else {
            proof {
                assert(old(self)@.denied.contains(path@));
                assert(self@.denied =~= old(self)@.denied.insert(path@));
            }
        }
        proof {
            assert(self@.files =~= old(self)@.files);
            assert(self@.output =~= old(self)@.output);
        }
    }

    /// Report a console event.
    pub fn emit(&mut self, event: OutputEvent)
        ensures
            final(self)@.output == old(self)@.output.push(event@),
            final(self)@.files == old(self)@.files,
            final(self)@.denied == old(self)@.denied,
    {
        self.output.push(event);
        proof {
            assert(self@.output =~= old(self)@.output.push(event@));
            assert(self@.files =~= old(self)@.files);
            assert(self@.denied =~= old(self)@.denied);
        }
    }

    /// The events reported so far, oldest first.
    pub fn output(&self) -> (events: &Vec<OutputEvent>)
        ensures
            events@.map_values(|e: OutputEvent| e@) == self@.output,
    {
        &self.output
    }

    /// The paths that currently hold a file, as a list.
    pub fn present_files(&self) -> (paths: &Vec<String>)
        ensures
            forall|q: Seq<char>|
                self@.files.contains(q) == seq_has(paths@, paths@.len() as int, q),
    {
        &self.files
    }
}

} // verus!
