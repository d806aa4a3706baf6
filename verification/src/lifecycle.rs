//! Model lifecycle controller: the slot that holds the displayed model.
//!
//! The slot is empty, or waits for an asset to be resolved, or holds the one
//! model that is on display. Requests that do not fit the slot's state are
//! dropped: a load while a model is displayed or another load is under way,
//! an unload while nothing is displayed. An unload does not cancel a load
//! that is under way.

use vstd::prelude::*;
use rand::seq::SliceRandom;

verus! {

/// What a [`LoaderState`] stands for.
pub enum Slot {
    Empty,
    Resolving(Seq<char>),
    Loaded,
}

/// What reaches the slot: a request ([`ModelEvent`]) or the end of a
/// resolution ([`Resolution`]).
pub enum Signal {
    RequestLoad(Seq<char>),
    RequestUnload,
    Resolved,
    Failed,
}

/// What an [`Intent`] stands for.
pub enum Effect {
    Resolve(Seq<char>),
    Spawn(Seq<char>),
    Despawn,
    Ignore,
    GiveUp(Seq<char>),
}

/// The slot after `signal`, and what the surrounding program is to do.
pub open spec fn step(slot: Slot, signal: Signal) -> (Slot, Effect) {
    match (slot, signal) {
        (Slot::Empty, Signal::RequestLoad(path)) => (Slot::Resolving(path), Effect::Resolve(path)),
        (Slot::Loaded, Signal::RequestUnload) => (Slot::Empty, Effect::Despawn),
        (Slot::Resolving(path), Signal::Resolved) => (Slot::Loaded, Effect::Spawn(path)),
        (Slot::Resolving(path), Signal::Failed) => (Slot::Empty, Effect::GiveUp(path)),
        _ => (slot, Effect::Ignore),
    }
}

/// The slot after the signals `signals`, starting from `start`.
pub open spec fn slot_from(start: Slot, signals: Seq<Signal>) -> Slot
    decreases signals.len(),
{
    if signals.len() == 0 {
        start
    } else {
        step(slot_from(start, signals.drop_last()), signals.last()).0
    }
}

/// The slot after the signals `signals`, starting empty.
pub open spec fn slot_after(signals: Seq<Signal>) -> Slot {
    slot_from(Slot::Empty, signals)
}

/// How many models the signals `signals` have spawned, starting from `start`.
pub open spec fn spawns_from(start: Slot, signals: Seq<Signal>) -> nat
    decreases signals.len(),
{
    if signals.len() == 0 {
        0
    } else {
        spawns_from(start, signals.drop_last()) + if step(
            slot_from(start, signals.drop_last()),
            signals.last(),
        ).1 is Spawn {
            1nat
        } else {
            0nat
        }
    }
}

/// A load request for each of `paths` in turn, each followed by the success
/// of a resolution.
pub open spec fn resolved_loads(paths: Seq<Seq<char>>) -> Seq<Signal>
    decreases paths.len(),
{
    if paths.len() == 0 {
        Seq::empty()
    } else {
        resolved_loads(paths.drop_last()).push(Signal::RequestLoad(paths.last())).push(
            Signal::Resolved,
        )
    }
}

/// By how much an effect changes the number of model entities.
pub open spec fn entities_added(effect: Effect) -> int {
    match effect {
        Effect::Spawn(_) => 1,
        Effect::Despawn => -1,
        _ => 0,
    }
}

/// The number of model entities after the signals `signals`, starting with
/// an empty slot and no entity.
pub open spec fn entities_after(signals: Seq<Signal>) -> int
    decreases signals.len(),
{
    if signals.len() == 0 {
        0
    } else {
        entities_after(signals.drop_last()) + entities_added(
            step(slot_after(signals.drop_last()), signals.last()).1,
        )
    }
}

/// A request to the slot.
#[derive(Clone, Debug, PartialEq, Eq)]
pub enum ModelEvent {
    /// Display the asset at this path.
    RequestLoad(String),
    /// Remove the displayed model.
    RequestUnload,
}

impl View for ModelEvent {
    type V = Signal;

    open spec fn view(&self) -> Signal {
        match self {
            ModelEvent::RequestLoad(path) => Signal::RequestLoad(path@),
            ModelEvent::RequestUnload => Signal::RequestUnload,
        }
    }
}

/// How a resolution ended.
#[derive(Clone, Copy, Debug, PartialEq, Eq, Structural)]
pub enum Resolution {
    Resolved,
    Failed,
}

impl View for Resolution {
    type V = Signal;

    open spec fn view(&self) -> Signal {
        match self {
            Resolution::Resolved => Signal::Resolved,
            Resolution::Failed => Signal::Failed,
        }
    }
}

/// What the surrounding program is to do after a signal.
#[derive(Clone, Debug, PartialEq, Eq)]
pub enum Intent {
    /// Start resolving the asset at this path.
    Resolve(String),
    /// Spawn the model that was resolved from this path.
    Spawn(String),
    /// Destroy the displayed model and everything under it.
    Despawn,
    /// Nothing: the signal does not fit the slot's state.
    Ignore,
    /// Nothing: the asset at this path could not be resolved, and the slot is
    /// empty again.
    GiveUp(String),
}

impl View for Intent {
    type V = Effect;

    open spec fn view(&self) -> Effect {
        match self {
            Intent::Resolve(path) => Effect::Resolve(path@),
            Intent::Spawn(path) => Effect::Spawn(path@),
            Intent::Despawn => Effect::Despawn,
            Intent::Ignore => Effect::Ignore,
            Intent::GiveUp(path) => Effect::GiveUp(path@),
        }
    }
}

/// The state of the slot.
#[derive(Clone, Debug, PartialEq, Eq)]
pub enum LoaderState {
    /// No model is displayed and none is on its way.
    Empty,
    /// The asset at this path is being resolved.
    Resolving(String),
    /// A model is displayed.
    Loaded,
}

impl View for LoaderState {
    type V = Slot;

    open spec fn view(&self) -> Slot {
        match self {
            LoaderState::Empty => Slot::Empty,
            LoaderState::Resolving(path) => Slot::Resolving(path@),
            LoaderState::Loaded => Slot::Loaded,
        }
    }
}

impl LoaderState {
    /// An empty slot.
    pub fn new() -> (state: LoaderState)
        ensures
            state@ == Slot::Empty,
    {
        LoaderState::Empty
    }

    /// Whether a model is displayed.
    pub fn loaded(&self) -> (l: bool)
        ensures
            l == (self@ is Loaded),
    {
        match self {
            LoaderState::Loaded => true,
            _ => false,
        }
    }

    /// Takes a request and says what is to be done about it.
    pub fn handle(&mut self, event: ModelEvent) -> (intent: Intent)
        ensures
            (final(self)@, intent@) == step(old(self)@, event@),
    {
        match event {
            ModelEvent::RequestLoad(path) => {
                let empty = match self {
                    LoaderState::Empty => true,
                    _ => false,
                };
                if empty {
                    *self = LoaderState::Resolving(path.clone());
                    Intent::Resolve(path)
                } else {
                    Intent::Ignore
                }
            },
            ModelEvent::RequestUnload => {
                if self.loaded() {
                    *self = LoaderState::Empty;
                    Intent::Despawn
                } else {
                    Intent::Ignore
                }
            },
        }
    }

    /// Takes the end of a resolution and says what is to be done about it.
    pub fn complete(&mut self, resolution: Resolution) -> (intent: Intent)
        ensures
            (final(self)@, intent@) == step(old(self)@, resolution@),
    {
        let pending = match self {
            LoaderState::Resolving(path) => Some(path.clone()),
            _ => None,
        };
        match pending {
            Some(path) => match resolution {
                Resolution::Resolved => {
                    *self = LoaderState::Loaded;
                    Intent::Spawn(path)
                },
                Resolution::Failed => {
                    *self = LoaderState::Empty;
                    Intent::GiveUp(path)
                },
            },
            None => Intent::Ignore,
        }
    }
}

impl Default for LoaderState {
    /// An empty slot.
    fn default() -> (state: LoaderState)
        ensures
            state@ == Slot::Empty,
    {
        LoaderState::Empty
    }
}

/// Asking twice in a row for the model to be removed leaves the slot as
/// asking once does: without a model, and empty unless a load is under way.
/// The second request is dropped.
pub proof fn lemma_unload_idempotent(slot: Slot)
    ensures
        step(step(slot, Signal::RequestUnload).0, Signal::RequestUnload).0 == step(
            slot,
            Signal::RequestUnload,
        ).0,
        step(step(slot, Signal::RequestUnload).0, Signal::RequestUnload).1 == Effect::Ignore,
        !(step(slot, Signal::RequestUnload).0 is Loaded),
        !(slot is Resolving) ==> step(slot, Signal::RequestUnload).0 == Slot::Empty,
{
}

/// After any run of requests and resolutions, in any order, there is one
/// model entity if the slot holds a model, and none otherwise: never two.
pub proof fn lemma_at_most_one_model(signals: Seq<Signal>)
    ensures
        entities_after(signals) == if slot_after(signals) is Loaded {
            1int
        } else {
            0int
        },
        0 <= entities_after(signals) <= 1,
    decreases signals.len(),
{
    if signals.len() > 0 {
        lemma_at_most_one_model(signals.drop_last());
    }
}

/// Any run of load requests, each followed by the success of a resolution,
/// leaves the slot with a model. It spawns no model where the slot held one
/// at the start, and one model otherwise, however many loads were asked for.
pub proof fn lemma_resolved_loads_spawn_once(start: Slot, paths: Seq<Seq<char>>)
    requires
        paths.len() > 0,
    ensures
        slot_from(start, resolved_loads(paths)) is Loaded,
        spawns_from(start, resolved_loads(paths)) == if start is Loaded {
            0nat
        } else {
            1nat
        },
    decreases paths.len(),
{
    let earlier = resolved_loads(paths.drop_last());
    let asked = earlier.push(Signal::RequestLoad(paths.last()));
    let all = asked.push(Signal::Resolved);
    assert(all.drop_last() == asked);
    assert(asked.drop_last() == earlier);
    let before = slot_from(start, earlier);
    let waiting = step(before, Signal::RequestLoad(paths.last())).0;
    assert(slot_from(start, asked) == waiting);
    assert(slot_from(start, all) == step(waiting, Signal::Resolved).0);
    assert(spawns_from(start, asked) == spawns_from(start, earlier));
    if paths.len() > 1 {
        lemma_resolved_loads_spawn_once(start, paths.drop_last());
    } else {
        assert(earlier.len() == 0);
        assert(before == start);
    }
}

/// While a load is under way, a second load request is dropped and changes
/// nothing; the model that is spawned in the end is the one asked for first.
pub proof fn lemma_second_load_ignored(first: Seq<char>, second: Seq<char>)
    ensures
        step(Slot::Resolving(first), Signal::RequestLoad(second)) == (
            Slot::Resolving(first),
            Effect::Ignore,
        ),
        step(Slot::Resolving(first), Signal::Resolved).1 == Effect::Spawn(first),
{
}

/// A slot comes to hold a model in one way only: by the end, in success, of
/// the resolution that it was waiting for.
pub proof fn lemma_loaded_only_by_resolution(slot: Slot, signal: Signal)
    requires
        !(slot is Loaded),
        step(slot, signal).0 is Loaded,
    ensures
        slot is Resolving,
        signal == Signal::Resolved,
{
}

/// A resolution that fails leaves the slot empty, and the next load request
/// is taken up.
pub proof fn lemma_failed_load_can_be_retried(path: Seq<char>, next: Seq<char>)
    ensures
        step(Slot::Resolving(path), Signal::Failed).0 == Slot::Empty,
        step(step(Slot::Resolving(path), Signal::Failed).0, Signal::RequestLoad(next)) == (
            Slot::Resolving(next),
            Effect::Resolve(next),
        ),
{
}

/// Picks one of `candidates` at random: `rand::seq::SliceRandom::choose` on
/// the slice, with the generator of `rand::thread_rng`. Taken on trust from
/// the source of `choose`: it gives nothing for an empty slice, and otherwise
/// a reference to one element of the slice, which is copied here. Which
/// element comes is not stated, for it differs from call to call. No input
/// makes the call panic. The generator does panic where the machine fails
/// it: if it cannot be seeded from the operating system on a thread's first
/// call, if a later reseeding from the operating system fails (one is due
/// after every 64 KiB of output and after a fork), or if its fork handler
/// cannot be registered.
#[verifier::external_body]
fn choose_candidate(candidates: &Vec<String>) -> (picked: Option<String>)
    ensures
        picked is None <==> candidates@.len() == 0,
        picked matches Some(path) ==> exists|i: int|
            0 <= i < candidates@.len() && candidates@[i]@ == path@,
{
    candidates.choose(&mut rand::thread_rng()).cloned()
}

/// The request that a toggle makes, given whether a model is displayed and
/// which candidate was picked: an unload where a model is displayed, else a
/// load of the picked candidate, else nothing.
pub fn toggle_event(loaded: bool, picked: Option<String>) -> (event: Option<ModelEvent>)
    ensures
        loaded ==> (event matches Some(e) && e@ == Signal::RequestUnload),
        !loaded ==> match picked {
            Some(path) => (event matches Some(e) && e@ == Signal::RequestLoad(path@)),
            None => event is None,
        },
{
    if loaded {
        Some(ModelEvent::RequestUnload)
    } else {
        match picked {
            Some(path) => Some(ModelEvent::RequestLoad(path)),
            None => None,
        }
    }
}

/// The request that a toggle makes: an unload where a model is displayed,
/// else a load of one of `candidates`, picked at random once; nothing where
/// there is no candidate to pick.
pub fn toggle(state: &LoaderState, candidates: &Vec<String>) -> (event: Option<ModelEvent>)
    ensures
        state@ is Loaded ==> (event matches Some(e) && e@ == Signal::RequestUnload),
        !(state@ is Loaded) && candidates@.len() == 0 ==> event is None,
        !(state@ is Loaded) && candidates@.len() > 0 ==> (event matches Some(e) && exists|i: int|
            0 <= i < candidates@.len() && e@ == Signal::RequestLoad(candidates@[i]@)),
{
    if state.loaded() {
        toggle_event(true, None)
    } else {
        toggle_event(false, choose_candidate(candidates))
    }
}

/// The assets that a toggle picks from unless told otherwise.
pub fn default_candidates() -> (candidates: Vec<String>)
    ensures
        candidates@.len() == 3,
        candidates@[0]@ == "test.gltf#Scene0"@,
        candidates@[1]@ == "duplex.glb#Scene0"@,
        candidates@[2]@ == "cyclist.glb#Scene0"@,
{
    let mut candidates: Vec<String> = Vec::new();
    candidates.push("test.gltf#Scene0".to_owned());
    candidates.push("duplex.glb#Scene0".to_owned());
    candidates.push("cyclist.glb#Scene0".to_owned());
    candidates
}

} // verus!
