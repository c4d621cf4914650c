use vstd::prelude::*;

use crate::plugin::PluginError;

verus! {

/// Where one load attempt stands.  `M` is the handle of an opened module,
/// `P` the extension object its entry point produced.
///
/// A module handle is held only while the attempt can still succeed: the
/// stages that end an attempt in failure hold none, so the module is closed
/// as soon as the attempt fails.
pub enum LoadStage<M, P> {
    /// Nothing opened yet.
    Unloaded,
    /// The module is open; its entry symbol has not been looked up.
    Loaded(M),
    /// The entry symbol was found and has not been invoked yet.
    Resolved(M),
    /// The entry point produced an extension object, owned from now on.
    Initialized(M, P),
    /// The attempt failed; no transition leaves this stage.
    Failed(PluginError),
}

/// The outside work that a stage asks for next.
#[derive(Debug, Clone, Copy, PartialEq, Eq, Structural)]
pub enum LoadStep {
    /// Open the module at the requested path.
    OpenModule,
    /// Look up the entry symbol in the open module.
    ResolveEntry,
    /// Call the entry point, once, with no arguments.
    InvokeEntry,
    /// The attempt is over.
    Finished,
}

/// What the outside work reported.
pub enum LoadEvent<M, P> {
    /// The module was opened.
    Opened(M),
    /// The module could not be opened, with the loader's diagnostic.
    OpenFailed(String),
    /// The entry symbol is present.
    EntryFound,
    /// The entry symbol is absent, with the loader's diagnostic.
    EntryMissing(String),
    /// The entry point returned: an object, or nothing (a null pointer).
    EntryReturned(Option<P>),
}

/// The step that `stage` asks for.
pub open spec fn spec_next_step<M, P>(stage: LoadStage<M, P>) -> LoadStep {
    match stage {
        LoadStage::Unloaded => LoadStep::OpenModule,
        LoadStage::Loaded(_) => LoadStep::ResolveEntry,
        LoadStage::Resolved(_) => LoadStep::InvokeEntry,
        LoadStage::Initialized(_, _) => LoadStep::Finished,
        LoadStage::Failed(_) => LoadStep::Finished,
    }
}

/// The transition table of a load attempt.  An event that does not answer
/// the pending step breaks the loader protocol and fails the attempt with
/// `InitError`; a finished attempt ignores further events.
pub open spec fn transition<M, P>(stage: LoadStage<M, P>, event: LoadEvent<M, P>) -> LoadStage<M, P> {
    match (stage, event) {
        (LoadStage::Unloaded, LoadEvent::Opened(m)) => LoadStage::Loaded(m),
        (LoadStage::Unloaded, LoadEvent::OpenFailed(d)) => LoadStage::Failed(PluginError::LoadError(d)),
        (LoadStage::Loaded(m), LoadEvent::EntryFound) => LoadStage::Resolved(m),
        (LoadStage::Loaded(_), LoadEvent::EntryMissing(d)) => LoadStage::Failed(PluginError::SymbolError(d)),
        (LoadStage::Resolved(m), LoadEvent::EntryReturned(Some(p))) => LoadStage::Initialized(m, p),
        (LoadStage::Resolved(_), LoadEvent::EntryReturned(None)) => LoadStage::Failed(PluginError::InitError),
        (LoadStage::Initialized(m, p), _) => LoadStage::Initialized(m, p),
        (LoadStage::Failed(e), _) => LoadStage::Failed(e),
        _ => LoadStage::Failed(PluginError::InitError),
    }
}

/// The stage reached from `stage` after the events, in order.
pub open spec fn run_from<M, P>(stage: LoadStage<M, P>, events: Seq<LoadEvent<M, P>>) -> LoadStage<M, P>
    decreases events.len(),
{
    if events.len() == 0 {
        stage
    } else {
        run_from(transition(stage, events[0]), events.drop_first())
    }
}

/// The steps asked for along the way, one before each event.
pub open spec fn steps_from<M, P>(stage: LoadStage<M, P>, events: Seq<LoadEvent<M, P>>) -> Seq<LoadStep>
    decreases events.len(),
{
    if events.len() == 0 {
        Seq::empty()
    } else {
        seq![spec_next_step(stage)] + steps_from(transition(stage, events[0]), events.drop_first())
    }
}

/// The stage that a fresh attempt reaches after the events.
pub open spec fn run<M, P>(events: Seq<LoadEvent<M, P>>) -> LoadStage<M, P> {
    run_from(LoadStage::Unloaded, events)
}

impl<M, P> LoadStage<M, P> {
    /// A fresh attempt: nothing opened yet.
    pub fn new() -> (r: Self)
        ensures
            r is Unloaded,
    {
        LoadStage::Unloaded
    }

    /// The outside work to do next.
    pub fn next_step(&self) -> (r: LoadStep)
        ensures
            r == spec_next_step(*self),
    {
        match self {
            LoadStage::Unloaded => LoadStep::OpenModule,
            LoadStage::Loaded(_) => LoadStep::ResolveEntry,
            LoadStage::Resolved(_) => LoadStep::InvokeEntry,
            LoadStage::Initialized(_, _) => LoadStep::Finished,
            LoadStage::Failed(_) => LoadStep::Finished,
        }
    }

    /// Takes in what the outside work reported.  A module handle that the new
    /// stage does not keep is dropped here, which closes the module.
    pub fn advance(self, event: LoadEvent<M, P>) -> (r: Self)
        ensures
            r == transition(self, event),
    {
        match (self, event) {
            (LoadStage::Unloaded, LoadEvent::Opened(m)) => LoadStage::Loaded(m),
            (LoadStage::Unloaded, LoadEvent::OpenFailed(d)) => LoadStage::Failed(PluginError::LoadError(d)),
            (LoadStage::Loaded(m), LoadEvent::EntryFound) => LoadStage::Resolved(m),
            (LoadStage::Loaded(_), LoadEvent::EntryMissing(d)) => LoadStage::Failed(PluginError::SymbolError(d)),
            (LoadStage::Resolved(m), LoadEvent::EntryReturned(Some(p))) => LoadStage::Initialized(m, p),
            (LoadStage::Resolved(_), LoadEvent::EntryReturned(None)) => LoadStage::Failed(PluginError::InitError),
            (LoadStage::Initialized(m, p), _) => LoadStage::Initialized(m, p),
            (LoadStage::Failed(e), _) => LoadStage::Failed(e),
            _ => LoadStage::Failed(PluginError::InitError),
        }
    }
}

/// A failed attempt stays failed, with the same error, whatever is reported
/// afterwards.
pub proof fn lemma_failure_is_final<M, P>(e: PluginError, events: Seq<LoadEvent<M, P>>)
    ensures
        run_from(LoadStage::Failed(e), events) == LoadStage::<M, P>::Failed(e),
    decreases events.len(),
{
    if events.len() > 0 {
        lemma_failure_is_final::<M, P>(e, events.drop_first());
    }
}

/// Once an attempt is over, it asks for nothing more.
proof fn lemma_finished_asks_nothing<M, P>(stage: LoadStage<M, P>, events: Seq<LoadEvent<M, P>>)
    requires
        spec_next_step(stage) == LoadStep::Finished,
    ensures
        forall|i: int|
            0 <= i < steps_from(stage, events).len() ==> #[trigger] steps_from(stage, events)[i]
                == LoadStep::Finished,
    decreases events.len(),
{
    if events.len() > 0 {
        lemma_finished_asks_nothing(transition(stage, events[0]), events.drop_first());
    }
}

/// The entry point is invoked at most once per attempt: whatever the events,
/// no two of the steps asked for are `InvokeEntry`.
pub proof fn lemma_entry_invoked_at_most_once<M, P>(
    stage: LoadStage<M, P>,
    events: Seq<LoadEvent<M, P>>,
)
    ensures
        forall|i: int, j: int|
            0 <= i < j < steps_from(stage, events).len() ==> !(#[trigger] steps_from(stage, events)[i]
                == LoadStep::InvokeEntry && #[trigger] steps_from(stage, events)[j]
                == LoadStep::InvokeEntry),
    decreases events.len(),
{
    if events.len() > 0 {
        let next = transition(stage, events[0]);
        let rest = events.drop_first();
        lemma_entry_invoked_at_most_once(next, rest);
        if spec_next_step(stage) == LoadStep::InvokeEntry {
            lemma_finished_asks_nothing(next, rest);
        }
        let all = steps_from(stage, events);
        assert forall|i: int, j: int|
            0 <= i < j < all.len() implies !(#[trigger] all[i] == LoadStep::InvokeEntry
                && #[trigger] all[j] == LoadStep::InvokeEntry) by {
            assert(all[j] == steps_from(next, rest)[j - 1]);
            if i > 0 {
                assert(all[i] == steps_from(next, rest)[i - 1]);
            }
        }
    }
}

/// A fresh attempt ends with an extension only by the protocol: the module
/// was opened, its entry symbol found, and the entry point returned that
/// object; the attempt holds the module and the object those events carried.
pub proof fn lemma_initialized_only_by_protocol<M, P>(events: Seq<LoadEvent<M, P>>)
    requires
        run(events) is Initialized,
    ensures
        events.len() >= 3,
        events[0] is Opened,
        events[1] is EntryFound,
        events[2] matches LoadEvent::EntryReturned(Some(_)),
        run(events) == LoadStage::Initialized(events[0]->Opened_0, events[2]->EntryReturned_0->Some_0),
{
    let s0 = LoadStage::<M, P>::Unloaded;
    if events.len() == 0 {
        assert(run(events) == s0);
    } else {
        let s1 = transition(s0, events[0]);
        let r1 = events.drop_first();
        assert(run(events) == run_from(s1, r1));
        if !(events[0] is Opened) {
            lemma_failure_is_final(s1->Failed_0, r1);
        } else if r1.len() == 0 {
            assert(run_from(s1, r1) == s1);
        } else {
            let s2 = transition(s1, r1[0]);
            let r2 = r1.drop_first();
            assert(run_from(s1, r1) == run_from(s2, r2));
            if !(r1[0] is EntryFound) {
                lemma_failure_is_final(s2->Failed_0, r2);
            } else if r2.len() == 0 {
                assert(run_from(s2, r2) == s2);
            } else {
                let s3 = transition(s2, r2[0]);
                let r3 = r2.drop_first();
                assert(run_from(s2, r2) == run_from(s3, r3));
                if !(r2[0] matches LoadEvent::EntryReturned(Some(_))) {
                    lemma_failure_is_final(s3->Failed_0, r3);
                } else {
                    lemma_initialized_is_final(s3, r3);
                }
            }
        }
    }
}

/// A successful attempt keeps what it holds, whatever is reported afterwards.
proof fn lemma_initialized_is_final<M, P>(stage: LoadStage<M, P>, events: Seq<LoadEvent<M, P>>)
    requires
        stage is Initialized,
    ensures
        run_from(stage, events) == stage,
    decreases events.len(),
{
    if events.len() > 0 {
        lemma_initialized_is_final(stage, events.drop_first());
    }
}

} // verus!
