//! The model cache: which models are loaded, which are being loaded, and who
//! may load. It is the one piece of state that callers share. Access to it is
//! serialised by whoever holds it; every decision is taken here, so that a
//! model is loaded by one caller at a time and, once loaded, never again.

use crate::embedder::Embedder;
use crate::error::{is_model_not_found, Error};
use crate::registry::{ModelInfo, ModelInfoView, ModelRegistry};
use crate::store::texts_of;
use crate::table::KeyedTable;
use vstd::prelude::*;
use vstd::string::*;

verus! {

/// What the cache holds for an identifier it knows.
pub enum Slot {
    /// A caller has been told to load the model and has not yet reported.
    Loading,
    /// The model is loaded.
    Ready(Embedder),
}

/// Where an identifier stands.
#[derive(Clone, Copy, Debug, PartialEq, Eq, Structural)]
pub enum Phase {
    /// Nobody has asked for it, or the last attempt to load it failed.
    Absent,
    /// A caller is loading it.
    Loading,
    /// It is loaded.
    Ready,
}

/// What a caller who asks for a model is told to do.
#[derive(Debug)]
pub enum Admission {
    /// The model is loaded: use it.
    Ready,
    /// Another caller is loading it: wait for that caller to report, then ask
    /// again.
    Wait,
    /// Load it from this record, then report the outcome.
    Load(ModelInfo),
}

/// The state of a cache: each known identifier with its slot.
pub type CacheState = Map<Seq<char>, Slot>;

/// Where `id` stands in a state.
pub open spec fn phase_in(state: CacheState, id: Seq<char>) -> Phase {
    if !state.dom().contains(id) {
        Phase::Absent
    } else {
        match state[id] {
            Slot::Loading => Phase::Loading,
            Slot::Ready(_) => Phase::Ready,
        }
    }
}

/// The state after a caller has asked for `id`, where `known` tells whether
/// the registry has a record for it. Only an absent, known identifier changes:
/// it is marked as loading.
pub open spec fn after_request(state: CacheState, id: Seq<char>, known: bool) -> CacheState {
    if phase_in(state, id) is Absent && known {
        state.insert(id, Slot::Loading)
    } else {
        state
    }
}

/// Whether a caller who asks for `id` is told to load it.
pub open spec fn starts_load(state: CacheState, id: Seq<char>, known: bool) -> bool {
    phase_in(state, id) is Absent && known
}

/// The state after the outcome of a load of `id` has been reported: `Some`
/// with the embedder that was built, `None` for a failure. A model that is
/// ready stays as it is; otherwise a success makes it ready and a failure
/// makes it absent.
pub open spec fn completed(state: CacheState, id: Seq<char>, outcome: Option<Embedder>) -> CacheState {
    if phase_in(state, id) is Ready {
        state
    } else {
        match outcome {
            Some(embedder) => state.insert(id, Slot::Ready(embedder)),
            None => state.remove(id),
        }
    }
}

/// The state after `n` callers in a row have asked for `id`, none of them
/// having reported yet.
pub open spec fn after_requests(state: CacheState, id: Seq<char>, known: bool, n: nat) -> CacheState
    decreases n,
{
    if n == 0 {
        state
    } else {
        after_request(after_requests(state, id, known, (n - 1) as nat), id, known)
    }
}

/// How many of `n` callers in a row who ask for `id` are told to load it.
pub open spec fn loads_started(state: CacheState, id: Seq<char>, known: bool, n: nat) -> nat
    decreases n,
{
    if n == 0 {
        0
    } else {
        let earlier = loads_started(state, id, known, (n - 1) as nat);
        if starts_load(after_requests(state, id, known, (n - 1) as nat), id, known) {
            earlier + 1
        } else {
            earlier
        }
    }
}

/// Single flight. However many callers ask for a model before the first has
/// reported, at most one of them is told to load it; and where the model was
/// absent and the registry knows it, exactly one is, and the model is then
/// marked as loading.
pub proof fn lemma_single_flight(state: CacheState, id: Seq<char>, known: bool, n: nat)
    ensures
        loads_started(state, id, known, n) <= 1,
        phase_in(state, id) is Absent && known && n >= 1 ==> loads_started(state, id, known, n)
            == 1 && phase_in(after_requests(state, id, known, n), id) is Loading,
        !(phase_in(state, id) is Absent && known) ==> loads_started(state, id, known, n) == 0
            && after_requests(state, id, known, n) == state,
    decreases n,
{
    if n > 0 {
        lemma_single_flight(state, id, known, (n - 1) as nat);
    }
}

/// Asking for one model leaves every other identifier where it stood.
pub proof fn lemma_request_is_local(state: CacheState, id: Seq<char>, known: bool, other: Seq<char>)
    requires
        other != id,
    ensures
        phase_in(after_request(state, id, known), other) == phase_in(state, other),
        after_request(state, id, known).dom().contains(other) ==> after_request(state, id, known)[other]
            == state[other],
{
}

/// One embedder for all. Once a load of `id` has been reported as a success,
/// the model is ready with the embedder that was built, and neither further
/// callers nor further reports, of success or failure, put another in its
/// place.
pub proof fn lemma_ready_is_final(
    state: CacheState,
    id: Seq<char>,
    embedder: Embedder,
    known: bool,
    later: Option<Embedder>,
)
    requires
        !(phase_in(state, id) is Ready),
    ensures
        phase_in(completed(state, id, Some(embedder)), id) is Ready,
        completed(state, id, Some(embedder))[id] == Slot::Ready(embedder),
        after_request(completed(state, id, Some(embedder)), id, known) == completed(
            state,
            id,
            Some(embedder),
        ),
        !starts_load(completed(state, id, Some(embedder)), id, known),
        completed(completed(state, id, Some(embedder)), id, later) == completed(
            state,
            id,
            Some(embedder),
        ),
{
}

/// One thing that happens to a cache.
pub enum CacheOp {
    /// A caller asks for a model; `known` tells whether the registry has it.
    Request { id: Seq<char>, known: bool },
    /// A caller reports the outcome of a load: the embedder, or a failure.
    Report { id: Seq<char>, outcome: Option<Embedder> },
}

/// The state after one thing has happened.
pub open spec fn apply(state: CacheState, op: CacheOp) -> CacheState {
    match op {
        CacheOp::Request { id, known } => after_request(state, id, known),
        CacheOp::Report { id, outcome } => completed(state, id, outcome),
    }
}

/// The state after a history of things has happened, in order.
pub open spec fn apply_all(state: CacheState, history: Seq<CacheOp>) -> CacheState
    decreases history.len(),
{
    if history.len() == 0 {
        state
    } else {
        apply(apply_all(state, history.drop_last()), history.last())
    }
}

/// How many callers of a history are told to load `id`.
pub open spec fn loads_of(state: CacheState, history: Seq<CacheOp>, id: Seq<char>) -> nat
    decreases history.len(),
{
    if history.len() == 0 {
        0
    } else {
        let earlier = loads_of(state, history.drop_last(), id);
        match history.last() {
            CacheOp::Request { id: asked, known } => if asked == id && starts_load(
                apply_all(state, history.drop_last()),
                id,
                known,
            ) {
                earlier + 1
            } else {
                earlier
            },
            _ => earlier,
        }
    }
}

/// No step of a history reports on `id`.
pub open spec fn no_report_on(history: Seq<CacheOp>, id: Seq<char>) -> bool {
    forall|i: int|
        0 <= i < history.len() ==> !(#[trigger] history[i] matches CacheOp::Report { id: on, .. }
            && on == id)
}

/// Single flight, in any company. Whatever callers do about other models in
/// between, as long as nobody has reported on `id`, at most one caller is told
/// to load it; none is if the model was loading or ready to begin with; and a
/// model that was told to be loaded is marked as loading.
pub proof fn lemma_one_load_until_report(state: CacheState, history: Seq<CacheOp>, id: Seq<char>)
    requires
        no_report_on(history, id),
    ensures
        loads_of(state, history, id) <= 1,
        !(phase_in(state, id) is Absent) ==> loads_of(state, history, id) == 0 && phase_in(
            apply_all(state, history),
            id,
        ) == phase_in(state, id),
        phase_in(state, id) is Absent ==> if loads_of(state, history, id) == 1 {
            phase_in(apply_all(state, history), id) is Loading
        } else {
            phase_in(apply_all(state, history), id) is Absent
        },
    decreases history.len(),
{
    if history.len() > 0 {
        let earlier = history.drop_last();
        assert forall|i: int| 0 <= i < earlier.len() implies !(#[trigger] earlier[i] matches CacheOp::Report {
            id: on,
            ..
        } && on == id) by {
            assert(earlier[i] == history[i]);
        }
        lemma_one_load_until_report(state, earlier, id);
        assert(history.last() == history[history.len() - 1]);
    }
}

/// One embedder for all, for good. A model that is ready stays ready with the
/// same embedder through whatever happens afterwards.
pub proof fn lemma_ready_stays(state: CacheState, history: Seq<CacheOp>, id: Seq<char>)
    requires
        phase_in(state, id) is Ready,
    ensures
        phase_in(apply_all(state, history), id) is Ready,
        apply_all(state, history)[id] == state[id],
        loads_of(state, history, id) == 0,
    decreases history.len(),
{
    if history.len() > 0 {
        lemma_ready_stays(state, history.drop_last(), id);
    }
}

/// The cache of loaded models, keyed by model identifier. Nothing is ever
/// evicted: the cache grows with the number of distinct identifiers served.
pub struct ModelCache {
    slots: KeyedTable<Slot>,
}

impl View for ModelCache {
    type V = CacheState;

    closed spec fn view(&self) -> CacheState {
        self.slots@
    }
}

impl ModelCache {
    /// Where `id` stands.
    pub open spec fn phase(&self, id: Seq<char>) -> Phase {
        phase_in(self@, id)
    }

    /// A cache that knows no model.
    pub fn new() -> (cache: ModelCache)
        ensures
            cache@ == CacheState::empty(),
    {
        ModelCache { slots: KeyedTable::new() }
    }

    /// Where `id` stands.
    pub fn status(&self, id: &str) -> (phase: Phase)
        ensures
            phase == self.phase(id@),
    {
        match self.slots.get(id) {
            None => Phase::Absent,
            Some(Slot::Loading) => Phase::Loading,
            Some(Slot::Ready(_)) => Phase::Ready,
        }
    }

    /// Decides what a caller who needs the model `id` does next. A model that
    /// is ready is used as it is; one that another caller is loading is waited
    /// for; one that is absent is looked up in the registry and, if it is
    /// there, marked as loading and handed to this caller to load. An absent
    /// model that the registry does not know fails with `ModelNotFound`, and
    /// nothing changes.
    pub fn request(&mut self, id: &str, registry: &ModelRegistry) -> (admission: Result<
        Admission,
        Error,
    >)
        ensures
            final(self)@ == after_request(old(self)@, id@, registry@.dom().contains(id@)),
            match old(self).phase(id@) {
                Phase::Ready => admission matches Ok(Admission::Ready),
                Phase::Loading => admission matches Ok(Admission::Wait),
                Phase::Absent => if registry@.dom().contains(id@) {
                    admission matches Ok(Admission::Load(info)) && info@ == registry@[id@]
                } else {
                    admission matches Err(e) && is_model_not_found(e, id@)
                },
            },
    {
        match self.slots.get(id) {
            Some(Slot::Ready(_)) => Ok(Admission::Ready),
            Some(Slot::Loading) => Ok(Admission::Wait),
            None => {
                let info = registry.get_model(id)?.clone();
                self.slots.insert(String::from_str(id), Slot::Loading);
                Ok(Admission::Load(info))
            },
        }
    }

    /// Takes the outcome of a load of `id`. A success makes the model ready
    /// with the embedder that was built; a failure makes it absent again, so
    /// that a later caller may try, and is handed back. Where the model is
    /// ready already, it stays as it is and the outcome is dropped.
    pub fn complete(&mut self, id: &str, outcome: Result<Embedder, Error>) -> (reported: Result<
        (),
        Error,
    >)
        ensures
            final(self)@ == completed(
                old(self)@,
                id@,
                match outcome {
                    Ok(embedder) => Some(embedder),
                    Err(_) => None,
                },
            ),
            match reported {
                Ok(_) => final(self).phase(id@) is Ready,
                Err(e) => outcome == Err::<Embedder, Error>(e) && !(old(self).phase(id@) is Ready),
            },
    {
        if let Some(Slot::Ready(_)) = self.slots.get(id) {
            return Ok(());
        }
        match outcome {
            Ok(embedder) => {
                self.slots.insert(String::from_str(id), Slot::Ready(embedder));
                Ok(())
            },
            Err(e) => {
                let _ = self.slots.remove(id);
                Err(e)
            },
        }
    }

    /// The embedder of a model that is ready.
    pub fn get(&self, id: &str) -> (found: Option<&Embedder>)
        ensures
            match found {
                Some(embedder) => self.phase(id@) is Ready && self@[id@] == Slot::Ready(*embedder),
                None => !(self.phase(id@) is Ready),
            },
    {
        match self.slots.get(id) {
            Some(Slot::Ready(embedder)) => Some(embedder),
            _ => None,
        }
    }

    /// The identifiers of the models that are ready, each once, in the order
    /// in which they were first asked for.
    pub fn loaded_models(&self) -> (ids: Vec<String>)
        ensures
            texts_of(ids@).no_duplicates(),
            forall|id: Seq<char>| texts_of(ids@).contains(id) <==> self.phase(id) is Ready,
    {
        let n = self.slots.len();
        proof {
            use_type_invariant(&self.slots);
            self.slots.lemma_listing();
        }
        let mut ids: Vec<String> = Vec::new();
        let ghost mut picked: Seq<int> = Seq::empty();
        let mut i: usize = 0;
        while i < n
            invariant
                i <= n,
                n == self.slots.keys().len(),
                n == self.slots.values().len(),
                ids@.len() == picked.len(),
                forall|a: int| 0 <= a < picked.len() ==> 0 <= #[trigger] picked[a] < i,
                forall|a: int, b: int| 0 <= a < b < picked.len() ==> picked[a] < picked[b],
                forall|a: int|
                    0 <= a < picked.len() ==> (#[trigger] ids@[a])@ == self.slots.keys()[picked[a]]
                        && self.slots.values()[picked[a]] is Ready,
                forall|j: int|
                    0 <= j < i && self.slots.values()[j] is Ready ==> exists|a: int|
                        0 <= a < picked.len() && #[trigger] picked[a] == j,
            decreases n - i,
        {
            if let Slot::Ready(_) = self.slots.value_at(i) {
                ids.push(String::from_str(self.slots.key_at(i)));
                proof {
                    let ghost before = picked;
                    picked = picked.push(i as int);
                    assert forall|j: int|
                        0 <= j < i + 1 && self.slots.values()[j] is Ready implies exists|a: int|
                            0 <= a < picked.len() && #[trigger] picked[a] == j by {
                        if j < i {
                            let a = choose|a: int| 0 <= a < before.len() && #[trigger] before[a] == j;
                            assert(picked[a] == j);
                        } else {
                            assert(picked[picked.len() - 1] == j);
                        }
                    }
                }
            }
            i += 1;
        }
        proof {
            let texts = texts_of(ids@);
            assert forall|a: int, b: int|
                0 <= a < texts.len() && 0 <= b < texts.len() && a != b implies texts[a]
                != texts[b] by {
                assert(texts[a] == ids@[a]@ && texts[b] == ids@[b]@);
                assert(picked[a] != picked[b]);
            }
            assert forall|id: Seq<char>| texts.contains(id) <==> self.phase(id) is Ready by {
                if texts.contains(id) {
                    let a = choose|a: int| 0 <= a < texts.len() && texts[a] == id;
                    assert(texts[a] == ids@[a]@);
                    assert(self.slots.keys()[picked[a]] == id);
                }
                if self.phase(id) is Ready {
                    let j = choose|j: int|
                        0 <= j < self.slots.keys().len() && #[trigger] self.slots.keys()[j] == id;
                    let a = choose|a: int| 0 <= a < picked.len() && #[trigger] picked[a] == j;
                    assert(texts[a] == ids@[a]@);
                    assert(texts[a] == id);
                }
            }
        }
        ids
    }
}

} // verus!
