use vstd::prelude::*;

use crate::item::{expiry, Item};
use crate::shard::fresh_value;

verus! {

/// Where one `get_or_else_update` call stands.
///
/// The call first reads the key's shard under its shared lock. On a miss it
/// takes the shard's exclusive lock and looks again, since another caller may
/// have filled the key meanwhile. Only if it still misses does it run the
/// compute step, with the exclusive lock held throughout, and then store the
/// result before the lock is let go. So for one key at most one compute is in
/// flight at any time.
#[derive(PartialEq, Eq, Structural, Clone, Copy, Debug)]
pub enum FillPhase {
    /// Waiting for the lookup under the shared lock.
    Reading,
    /// Holding the exclusive lock, waiting for the second lookup.
    Locked,
    /// Holding the exclusive lock, waiting for the computed value.
    Computing,
    /// The call has its value.
    Finished,
}

/// What the caller of the protocol reports back.
pub enum FillEvent<V> {
    /// The lookup under the shared lock found this live value, or none.
    ReadDone(Option<V>),
    /// The lookup under the exclusive lock found this live value, or none.
    Rechecked(Option<V>),
    /// The compute step produced this value.
    Computed(V),
}

/// What the caller of the protocol does next.
pub enum FillAction<V> {
    /// Take the exclusive lock on the key's shard and look the key up again.
    AcquireWrite,
    /// Run the compute step while still holding the exclusive lock.
    RunCompute,
    /// Write the value under the key, release the lock and return the value.
    StoreAndReturn(V),
    /// Release any lock and return the value, which was already cached.
    Return(V),
    /// The event does not fit the phase: nothing to do.
    Ignore,
}

impl<V> FillAction<V> {
    pub open spec fn is_compute(&self) -> bool {
        self is RunCompute
    }
}

/// The phase and action that follow `event` in `phase`.
pub open spec fn next<V>(phase: FillPhase, event: FillEvent<V>) -> (FillPhase, FillAction<V>) {
    match (phase, event) {
        (FillPhase::Reading, FillEvent::ReadDone(Some(v))) => (FillPhase::Finished, FillAction::Return(v)),
        (FillPhase::Reading, FillEvent::ReadDone(None)) => (FillPhase::Locked, FillAction::AcquireWrite),
        (FillPhase::Locked, FillEvent::Rechecked(Some(v))) => (FillPhase::Finished, FillAction::Return(v)),
        (FillPhase::Locked, FillEvent::Rechecked(None)) => (FillPhase::Computing, FillAction::RunCompute),
        (FillPhase::Computing, FillEvent::Computed(v)) => (FillPhase::Finished, FillAction::StoreAndReturn(v)),
        (p, _) => (p, FillAction::Ignore),
    }
}

/// The actions that a run of `events` gives, starting in `phase`.
pub open spec fn actions<V>(phase: FillPhase, events: Seq<FillEvent<V>>) -> Seq<FillAction<V>>
    decreases events.len(),
{
    if events.len() == 0 {
        Seq::empty()
    } else {
        let (p, a) = next(phase, events[0]);
        seq![a] + actions(p, events.subrange(1, events.len() as int))
    }
}

/// How many times a run of `events` from `phase` runs the compute step.
pub open spec fn compute_count<V>(phase: FillPhase, events: Seq<FillEvent<V>>) -> nat
    decreases events.len(),
{
    if events.len() == 0 {
        0
    } else {
        let (p, a) = next(phase, events[0]);
        (if a.is_compute() { 1nat } else { 0nat }) + compute_count(p, events.subrange(1, events.len() as int))
    }
}

/// The phase in which a call starts: it first reads the key under the shared lock.
pub fn start() -> (r: FillPhase)
    ensures
        r == FillPhase::Reading,
{
    FillPhase::Reading
}

/// Advances the protocol by one event.
pub fn step<V>(phase: &mut FillPhase, event: FillEvent<V>) -> (r: FillAction<V>)
    ensures
        (*final(phase), r) == next(*old(phase), event),
{
    match (*phase, event) {
        (FillPhase::Reading, FillEvent::ReadDone(Some(v))) => {
            *phase = FillPhase::Finished;
            FillAction::Return(v)
        },
        (FillPhase::Reading, FillEvent::ReadDone(None)) => {
            *phase = FillPhase::Locked;
            FillAction::AcquireWrite
        },
        (FillPhase::Locked, FillEvent::Rechecked(Some(v))) => {
            *phase = FillPhase::Finished;
            FillAction::Return(v)
        },
        (FillPhase::Locked, FillEvent::Rechecked(None)) => {
            *phase = FillPhase::Computing;
            FillAction::RunCompute
        },
        (FillPhase::Computing, FillEvent::Computed(v)) => {
            *phase = FillPhase::Finished;
            FillAction::StoreAndReturn(v)
        },
        _ => FillAction::Ignore,
    }
}

spec fn computes_left(phase: FillPhase) -> nat {
    match phase {
        FillPhase::Reading | FillPhase::Locked => 1,
        _ => 0,
    }
}

proof fn lemma_compute_bound<V>(phase: FillPhase, events: Seq<FillEvent<V>>)
    ensures
        compute_count(phase, events) <= computes_left(phase),
    decreases events.len(),
{
    if events.len() > 0 {
        let (p, a) = next(phase, events[0]);
        lemma_compute_bound(p, events.subrange(1, events.len() as int));
    }
}

/// Single flight: whatever a call is told, it runs the compute step at most once.
pub proof fn lemma_at_most_one_compute<V>(events: Seq<FillEvent<V>>)
    ensures
        compute_count(FillPhase::Reading, events) <= 1,
{
    lemma_compute_bound(FillPhase::Reading, events);
}

proof fn lemma_unfold<V>(phase: FillPhase, e: FillEvent<V>, rest: Seq<FillEvent<V>>)
    ensures
        actions(phase, seq![e] + rest) == seq![next(phase, e).1] + actions(next(phase, e).0, rest),
        compute_count(phase, seq![e] + rest) == (if next(phase, e).1.is_compute() { 1nat } else { 0nat })
            + compute_count(next(phase, e).0, rest),
{
    let events = seq![e] + rest;
    assert(events[0] == e);
    assert(events.subrange(1, events.len() as int) =~= rest);
}

/// A call whose first lookup finds a live value returns it and never runs the
/// compute step, whatever else it is told.
pub proof fn lemma_warm_key_never_computes<V>(v: V, rest: Seq<FillEvent<V>>)
    ensures
        actions(FillPhase::Reading, seq![FillEvent::ReadDone(Some(v))] + rest)[0] == FillAction::Return(v),
        compute_count(FillPhase::Reading, seq![FillEvent::ReadDone(Some(v))] + rest) == 0,
{
    lemma_unfold(FillPhase::Reading, FillEvent::ReadDone(Some(v)), rest);
    lemma_compute_bound(FillPhase::Finished, rest);
}

/// A call that finds a live value once it holds the exclusive lock (one that
/// another caller's fill left there) returns it and never runs the compute step.
pub proof fn lemma_filled_meanwhile_never_computes<V>(v: V, rest: Seq<FillEvent<V>>)
    ensures
        actions(
            FillPhase::Reading,
            seq![FillEvent::ReadDone(None), FillEvent::Rechecked(Some(v))] + rest,
        )[1] == FillAction::Return(v),
        compute_count(
            FillPhase::Reading,
            seq![FillEvent::ReadDone(None), FillEvent::Rechecked(Some(v))] + rest,
        ) == 0,
{
    let e1 = FillEvent::<V>::ReadDone(None);
    let e2 = FillEvent::Rechecked(Some(v));
    assert(seq![e1, e2] + rest =~= seq![e1] + (seq![e2] + rest));
    lemma_unfold(FillPhase::Reading, e1, seq![e2] + rest);
    lemma_unfold(FillPhase::Locked, e2, rest);
    lemma_compute_bound(FillPhase::Finished, rest);
}

/// A cold call (both lookups miss) runs the compute step exactly once and then
/// stores and returns what it produced.
pub proof fn lemma_cold_key_computes_once<V>(v: V, rest: Seq<FillEvent<V>>)
    ensures
        compute_count(
            FillPhase::Reading,
            seq![FillEvent::ReadDone(None), FillEvent::Rechecked(None), FillEvent::Computed(v)] + rest,
        ) == 1,
        actions(
            FillPhase::Reading,
            seq![FillEvent::ReadDone(None), FillEvent::Rechecked(None), FillEvent::Computed(v)] + rest,
        )[2] == FillAction::StoreAndReturn(v),
{
    let e1 = FillEvent::<V>::ReadDone(None);
    let e2 = FillEvent::<V>::Rechecked(None);
    let e3 = FillEvent::Computed(v);
    assert(seq![e1, e2, e3] + rest =~= seq![e1] + (seq![e2] + (seq![e3] + rest)));
    lemma_unfold(FillPhase::Reading, e1, seq![e2] + (seq![e3] + rest));
    lemma_unfold(FillPhase::Locked, e2, seq![e3] + rest);
    lemma_unfold(FillPhase::Computing, e3, rest);
    lemma_compute_bound(FillPhase::Finished, rest);
}

/// A caller that takes the exclusive lock after another caller's fill has
/// stored `v` at `t0` for `ttl` finds `v` on its second lookup at any instant
/// before the entry expires, and so does not run the compute step again.
pub proof fn lemma_later_caller_reuses_fill<V>(
    m: Map<Seq<char>, Item<V>>,
    key: Seq<char>,
    v: V,
    t0: u64,
    ttl: u64,
    t: u64,
    rest: Seq<FillEvent<V>>,
)
    requires
        t0 <= t < expiry(t0, ttl) <= u64::MAX,
    ensures
        fresh_value(m.insert(key, Item { instant: (t0 + ttl) as u64, value: v }), key, t) == Some(v),
        compute_count(
            FillPhase::Reading,
            seq![
                FillEvent::ReadDone(None),
                FillEvent::Rechecked(fresh_value(m.insert(key, Item { instant: (t0 + ttl) as u64, value: v }), key, t)),
            ] + rest,
        ) == 0,
{
    lemma_filled_meanwhile_never_computes(v, rest);
}

} // verus!
