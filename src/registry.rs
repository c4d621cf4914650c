use vstd::prelude::*;

use crate::loader::{lemma_failure_is_final, run, LoadEvent, LoadStage};
use crate::plugin::{dispatched, Extension, Plugin, PluginError};

verus! {

/// One opened module together with the extension it produced.
///
/// The two share one lifetime and are never handed out apart.  The
/// extension is declared before the module: fields are dropped in
/// declaration order, so the extension object is released strictly before
/// the module that holds its code is closed.
pub struct LoadedModule<M, P> {
    extension: Extension<P>,
    module: M,
}

/// The registry of loaded extensions, indexed by the names they report.
///
/// Every name appears once, and each entry owns the module that backs its
/// extension.  Entries come only from successful loads and leave only when
/// the registry itself is dropped.
pub struct PluginManager<M, P: Plugin> {
    modules: Vec<LoadedModule<M, P>>,
}

impl<M, P: Plugin> View for PluginManager<M, P> {
    /// The registered extensions, each with its module, in load order.
    type V = Seq<(Extension<P>, M)>;

    closed spec fn view(&self) -> Seq<(Extension<P>, M)> {
        self.modules@.map_values(|e: LoadedModule<M, P>| (e.extension, e.module))
    }
}

/// The names that the entries' extensions reported, in order.
pub open spec fn names_of<M, P: Plugin>(entries: Seq<(Extension<P>, M)>) -> Seq<Seq<char>> {
    entries.map_values(|e: (Extension<P>, M)| e.0.spec_name())
}

/// Whether `r` and `after` are what registering `extension` gives in a
/// registry holding `entries`: `DuplicateNameError` with nothing changed
/// when the name it reported is taken, else success with one entry more,
/// at the end, under that name.
pub open spec fn registers<M, P: Plugin>(
    entries: Seq<(Extension<P>, M)>,
    extension: Extension<P>,
    module: M,
    r: Result<(), PluginError>,
    after: Seq<(Extension<P>, M)>,
) -> bool {
    if names_of(entries).contains(extension.spec_name()) {
        &&& r matches Err(PluginError::DuplicateNameError(n)) && n@ == extension.spec_name()
        &&& after == entries
    } else {
        &&& r is Ok
        &&& after == entries.push((extension, module))
    }
}

/// Whether `r` and `after` are what loading the attempt into a registry
/// holding `entries` gives: a produced extension is registered under the
/// name it reported; a failed attempt returns its own error and an
/// unfinished one `InitError`, both with nothing changed.
pub open spec fn loads<M, P: Plugin>(
    entries: Seq<(Extension<P>, M)>,
    attempt: LoadStage<M, Extension<P>>,
    r: Result<(), PluginError>,
    after: Seq<(Extension<P>, M)>,
) -> bool {
    match attempt {
        LoadStage::Initialized(m, e) => registers(entries, e, m, r, after),
        LoadStage::Failed(e) => r == Err::<(), PluginError>(e) && after == entries,
        _ => r == Err::<(), PluginError>(PluginError::InitError) && after == entries,
    }
}

impl<M, P: Plugin> PluginManager<M, P> {
    /// No name is filed twice.  Each entry is filed under the name its own
    /// extension reported, by the definition of `names`.
    pub open spec fn wf(&self) -> bool {
        self.names().no_duplicates()
    }

    /// The names of the registered extensions, in load order.
    pub open spec fn names(&self) -> Seq<Seq<char>> {
        names_of(self@)
    }

    /// Whether an extension of this name is registered.
    pub open spec fn contains(&self, name: Seq<char>) -> bool {
        self.names().contains(name)
    }

    /// The extension registered under `name`, where there is one.
    pub open spec fn extension(&self, name: Seq<char>) -> Extension<P> {
        self@[self.names().index_of(name)].0
    }

    /// An empty registry.
    pub fn new() -> (r: Self)
        ensures
            r.wf(),
            r@ == Seq::<(Extension<P>, M)>::empty(),
    {
        let r = PluginManager { modules: Vec::new() };
        assert(r@ =~= Seq::<(Extension<P>, M)>::empty());
        r
    }

    /// How many extensions are registered.
    pub fn len(&self) -> (r: usize)
        ensures
            r == self@.len(),
    {
        self.modules.len()
    }

    /// Where `name` stands in the registry.
    fn position(&self, name: &str) -> (r: Option<usize>)
        ensures
            match r {
                Some(i) => i < self@.len() && self.names()[i as int] == name@,
                None => !self.contains(name@),
            },
    {
        let key = name.to_owned();
        let mut i: usize = 0;
        while i < self.modules.len()
            invariant
                i <= self.modules@.len(),
                key@ == name@,
                forall|j: int| 0 <= j < i ==> self.names()[j] != name@,
            decreases self.modules@.len() - i,
        {
            if self.modules[i].extension.is_named(&key) {
                return Some(i);
            }
            i += 1;
        }
        None
    }

    /// Registers the extension of a finished load attempt under the name it
    /// reported.  A failed attempt returns its error, an
    /// unfinished one `InitError`, and a name already registered
    /// `DuplicateNameError`; in each of those cases the registry is left
    /// exactly as it was and the attempt's module, if any, is closed here.
    pub fn load(&mut self, attempt: LoadStage<M, Extension<P>>) -> (r: Result<(), PluginError>)
        requires
            old(self).wf(),
        ensures
            final(self).wf(),
            loads(old(self)@, attempt, r, final(self)@),
    {
        match attempt {
            LoadStage::Initialized(module, extension) => {
                let name = extension.name().to_owned();
                match self.position(name.as_str()) {
                    Some(_) => Err(PluginError::DuplicateNameError(name)),
                    None => {
                        self.modules.push(LoadedModule { extension, module });
                        proof {
                            assert(self@ =~= old(self)@.push((extension, module)));
                            assert(self.names() =~= old(self).names().push(extension.spec_name()));
                        }
                        Ok(())
                    },
                }
            },
            LoadStage::Failed(e) => Err(e),
            _ => Err(PluginError::InitError),
        }
    }

    /// The extension registered under `name`, or `None` when there is none.
    /// The reference borrows the registry, so it cannot outlive the module
    /// behind it.
    pub fn get_plugin(&self, name: &str) -> (r: Option<&Extension<P>>)
        requires
            self.wf(),
        ensures
            match r {
                Some(p) => self.contains(name@) && *p == self.extension(name@) && p.spec_name() == name@,
                None => !self.contains(name@),
            },
    {
        match self.position(name) {
            Some(i) => {
                proof {
                    let k = self.names().index_of(name@);
                    assert(self.names().contains(name@));
                    assert(k == i as int);
                }
                Some(&self.modules[i].extension)
            },
            None => None,
        }
    }

    /// Runs a command on the extension registered under `name`: the
    /// arguments go to its `execute` as they are, once, and its outcome comes
    /// back unchanged, an error wrapped as `ExecutionError`.
    pub fn execute(&self, name: &str, args: Vec<String>) -> (r: Result<(), PluginError>)
        requires
            self.wf(),
        ensures
            !self.contains(name@) ==> (r matches Err(PluginError::PluginNotFoundError(n)) && n@
                == name@),
            self.contains(name@) ==> exists|outcome: Result<(), String>|
                self.extension(name@).spec_object().spec_execute(args@, outcome) && r == dispatched(
                    outcome,
                ),
    {
        match self.get_plugin(name) {
            Some(extension) => {
                let ghost given = args@;
                let outcome = extension.execute(args);
                let r = match outcome {
                    Ok(()) => Ok(()),
                    Err(e) => Err(PluginError::ExecutionError(e)),
                };
                assert(extension.spec_object().spec_execute(given, outcome) && r == dispatched(outcome));
                r
            },
            None => Err(PluginError::PluginNotFoundError(name.to_owned())),
        }
    }
}

/// Loading never removes or reorders entries: what was registered before
/// stays, in place, at the front.
pub proof fn lemma_load_keeps_entries<M, P: Plugin>(
    entries: Seq<(Extension<P>, M)>,
    attempt: LoadStage<M, Extension<P>>,
    r: Result<(), PluginError>,
    after: Seq<(Extension<P>, M)>,
)
    requires
        loads(entries, attempt, r, after),
    ensures
        after.len() >= entries.len(),
        after.take(entries.len() as int) == entries,
{
    assert(after.take(entries.len() as int) =~= entries);
}

/// A load that fails, for whatever reason, leaves the registry exactly as
/// it was.
pub proof fn lemma_failed_load_changes_nothing<M, P: Plugin>(
    entries: Seq<(Extension<P>, M)>,
    attempt: LoadStage<M, Extension<P>>,
    r: Result<(), PluginError>,
    after: Seq<(Extension<P>, M)>,
)
    requires
        loads(entries, attempt, r, after),
        r is Err,
    ensures
        after == entries,
{
}

/// A module whose entry point conforms loads exactly when the name its
/// extension reports is free, and is then the one entry filed under that
/// name; when the name is taken the load fails with `DuplicateNameError`
/// under that name and changes nothing.
pub proof fn lemma_conforming_module_loads<M, P: Plugin>(
    entries: Seq<(Extension<P>, M)>,
    module: M,
    extension: Extension<P>,
    r: Result<(), PluginError>,
    after: Seq<(Extension<P>, M)>,
)
    requires
        names_of(entries).no_duplicates(),
        loads(
            entries,
            run(
                seq![
                    LoadEvent::Opened(module),
                    LoadEvent::EntryFound,
                    LoadEvent::EntryReturned(Some(extension)),
                ],
            ),
            r,
            after,
        ),
    ensures
        r is Ok <==> !names_of(entries).contains(extension.spec_name()),
        r is Ok ==> {
            &&& after == entries.push((extension, module))
            &&& names_of(after).contains(extension.spec_name())
            &&& names_of(after).no_duplicates()
            &&& forall|i: int|
                0 <= i < after.len() && (#[trigger] after[i]).0.spec_name() == extension.spec_name()
                    ==> after[i].0 == extension && after[i].1 == module
        },
        r is Err ==> after == entries && (r matches Err(PluginError::DuplicateNameError(n)) && n@
            == extension.spec_name()),
{
    reveal_with_fuel(crate::loader::run_from, 4);
    let events = seq![
        LoadEvent::Opened(module),
        LoadEvent::EntryFound,
        LoadEvent::EntryReturned(Some(extension)),
    ];
    assert(events.drop_first().drop_first().drop_first() =~= Seq::<LoadEvent<M, Extension<P>>>::empty());
    assert(run(events) == LoadStage::Initialized(module, extension));
    let name = extension.spec_name();
    if !names_of(entries).contains(name) {
        assert(names_of(after) =~= names_of(entries).push(name));
        assert(names_of(after)[entries.len() as int] == name);
        assert forall|i: int|
            0 <= i < after.len() && (#[trigger] after[i]).0.spec_name() == name implies after[i].0
                == extension && after[i].1 == module by {
            if i < entries.len() {
                assert(names_of(entries)[i] == name);
            }
        }
    }
}

/// A load whose module cannot be opened fails with `LoadError`, carrying the
/// loader's diagnostic, and leaves the registry as it was, whatever is
/// reported afterwards.
pub proof fn lemma_unopened_module_changes_nothing<M, P: Plugin>(
    entries: Seq<(Extension<P>, M)>,
    diagnostic: String,
    later: Seq<LoadEvent<M, Extension<P>>>,
    r: Result<(), PluginError>,
    after: Seq<(Extension<P>, M)>,
)
    requires
        loads(entries, run(seq![LoadEvent::OpenFailed(diagnostic)] + later), r, after),
    ensures
        r == Err::<(), PluginError>(PluginError::LoadError(diagnostic)),
        after == entries,
{
    let events = seq![LoadEvent::OpenFailed(diagnostic)] + later;
    assert(events.drop_first() =~= later);
    lemma_failure_is_final::<M, Extension<P>>(PluginError::LoadError(diagnostic), later);
}

/// A load whose module lacks the entry symbol fails with `SymbolError`,
/// carrying the loader's diagnostic, and leaves the registry as it was.
pub proof fn lemma_missing_entry_changes_nothing<M, P: Plugin>(
    entries: Seq<(Extension<P>, M)>,
    module: M,
    diagnostic: String,
    later: Seq<LoadEvent<M, Extension<P>>>,
    r: Result<(), PluginError>,
    after: Seq<(Extension<P>, M)>,
)
    requires
        loads(
            entries,
            run(seq![LoadEvent::Opened(module), LoadEvent::EntryMissing(diagnostic)] + later),
            r,
            after,
        ),
    ensures
        r == Err::<(), PluginError>(PluginError::SymbolError(diagnostic)),
        after == entries,
{
    let events = seq![LoadEvent::Opened(module), LoadEvent::EntryMissing(diagnostic)] + later;
    reveal_with_fuel(crate::loader::run_from, 3);
    assert(events.drop_first() =~= seq![LoadEvent::EntryMissing(diagnostic)] + later);
    assert(events.drop_first().drop_first() =~= later);
    lemma_failure_is_final::<M, Extension<P>>(PluginError::SymbolError(diagnostic), later);
}

/// A load whose entry point returns no object fails with `InitError` and
/// leaves the registry as it was.
pub proof fn lemma_null_entry_changes_nothing<M, P: Plugin>(
    entries: Seq<(Extension<P>, M)>,
    module: M,
    later: Seq<LoadEvent<M, Extension<P>>>,
    r: Result<(), PluginError>,
    after: Seq<(Extension<P>, M)>,
)
    requires
        loads(
            entries,
            run(
                seq![
                    LoadEvent::Opened(module),
                    LoadEvent::EntryFound,
                    LoadEvent::EntryReturned(None),
                ] + later,
            ),
            r,
            after,
        ),
    ensures
        r == Err::<(), PluginError>(PluginError::InitError),
        after == entries,
{
    let events = seq![
        LoadEvent::Opened(module),
        LoadEvent::EntryFound,
        LoadEvent::EntryReturned(None),
    ] + later;
    reveal_with_fuel(crate::loader::run_from, 4);
    assert(events.drop_first() =~= seq![LoadEvent::EntryFound, LoadEvent::EntryReturned(None)] + later);
    assert(events.drop_first().drop_first() =~= seq![LoadEvent::EntryReturned(None)] + later);
    assert(events.drop_first().drop_first().drop_first() =~= later);
    lemma_failure_is_final::<M, Extension<P>>(PluginError::InitError, later);
}

/// Two modules whose extensions report the same name, into a registry that
/// does not hold it: the first registers, the second fails with
/// `DuplicateNameError` under that name, and the registry keeps exactly the
/// one entry the first added, which stays the first's.
pub proof fn lemma_same_name_loads_once<M, P: Plugin>(
    entries: Seq<(Extension<P>, M)>,
    first: (M, Extension<P>),
    second: (M, Extension<P>),
    r1: Result<(), PluginError>,
    once: Seq<(Extension<P>, M)>,
    r2: Result<(), PluginError>,
    twice: Seq<(Extension<P>, M)>,
)
    requires
        !names_of(entries).contains(first.1.spec_name()),
        second.1.spec_name() == first.1.spec_name(),
        loads(entries, LoadStage::Initialized(first.0, first.1), r1, once),
        loads(once, LoadStage::Initialized(second.0, second.1), r2, twice),
    ensures
        r1 is Ok,
        once == entries.push((first.1, first.0)),
        r2 matches Err(PluginError::DuplicateNameError(n)) && n@ == first.1.spec_name(),
        twice == once,
{
    assert(names_of(once) =~= names_of(entries).push(first.1.spec_name()));
    assert(names_of(once)[entries.len() as int] == first.1.spec_name());
}

} // verus!
