//! Continuous sampler model: a two-state machine driven by the shared
//! cancellation flag and by each tick's delivery result.
//!
//! The host loop around the library performs the outside work of a tick
//! (refresh, deliver, sleep); the decisions are taken here. Before each tick
//! the flag is observed: if it is set, the sampler exits without producing a
//! batch. A delivery failure is fatal: the sampler stops and never ticks
//! again. Cancellation is cooperative, so a tick already in flight completes;
//! the lemmas below bound what can still be delivered after a stop request.

use vstd::prelude::*;

verus! {

/// One per-core reading of a tick. The core id is the vendor identifier the
/// counter source reports — typically shared by every core of a package, so
/// it is not a stable per-core key; the entry's position in its batch is. The
/// usage reading is carried as the raw bit pattern of the source's
/// percentage value, opaque to this library.
#[derive(Clone, Debug)]
pub struct CoreSample {
    pub core_id: String,
    pub core_name: String,
    pub usage_bits: u32,
    pub frequency_mhz: u64,
}

/// Whether a sample carries exactly one of the counter source's per-core
/// readings: its vendor identifier, name, usage bit pattern and frequency.
pub open spec fn sample_matches_reading(s: CoreSample, r: (Seq<char>, Seq<char>, u32, u64)) -> bool {
    &&& s.core_id@ == r.0
    &&& s.core_name@ == r.1
    &&& s.usage_bits == r.2
    &&& s.frequency_mhz == r.3
}

/// The sampler's two states; `Stopped` is terminal.
#[derive(Clone, Copy, Debug, PartialEq, Eq, Structural)]
pub enum SamplerState {
    Running,
    Stopped,
}

/// What one tick does: deliver a batch, or exit without producing one.
#[derive(Clone, Copy, Debug, PartialEq, Eq, Structural)]
pub enum TickDecision {
    Deliver,
    Exit,
}

/// The decision taken at the head of a tick, given the state and the
/// cancellation flag as just observed: a running sampler delivers unless the
/// flag is set; a stopped sampler never delivers.
pub open spec fn step_decision(s: SamplerState, stop_seen: bool) -> TickDecision {
    if s is Stopped || stop_seen {
        TickDecision::Exit
    } else {
        TickDecision::Deliver
    }
}

/// The state after one tick: stopping is observed (or forced by a delivery
/// failure) and is never left.
pub open spec fn step_state(s: SamplerState, stop_seen: bool, delivery_ok: bool) -> SamplerState {
    if s is Stopped || stop_seen || !delivery_ok {
        SamplerState::Stopped
    } else {
        SamplerState::Running
    }
}

/// The executable decision of one tick.
pub fn sampler_decide(s: SamplerState, stop_seen: bool) -> (d: TickDecision)
    ensures
        d == step_decision(s, stop_seen),
{
    match s {
        SamplerState::Stopped => TickDecision::Exit,
        SamplerState::Running => if stop_seen {
            TickDecision::Exit
        } else {
            TickDecision::Deliver
        },
    }
}

/// The executable state transition of one tick.
pub fn sampler_advance(s: SamplerState, stop_seen: bool, delivery_ok: bool) -> (n: SamplerState)
    ensures
        n == step_state(s, stop_seen, delivery_ok),
{
    match s {
        SamplerState::Stopped => SamplerState::Stopped,
        SamplerState::Running => if stop_seen || !delivery_ok {
            SamplerState::Stopped
        } else {
            SamplerState::Running
        },
    }
}

/// The state before tick `k` of a run that starts in `Running`, given the
/// flag value observed at each tick and each tick's delivery result.
pub open spec fn state_before(stops: Seq<bool>, oks: Seq<bool>, k: int) -> SamplerState
    decreases k,
{
    if k <= 0 {
        SamplerState::Running
    } else {
        step_state(state_before(stops, oks, k - 1), stops[k - 1], oks[k - 1])
    }
}

/// Whether tick `k` of the run delivers a batch.
pub open spec fn delivers_at(stops: Seq<bool>, oks: Seq<bool>, k: int) -> bool {
    step_decision(state_before(stops, oks, k), stops[k]) is Deliver
}

/// A monotonic cancellation flag: once observed set, it is observed set at
/// every later tick. The controller only ever raises the flag, so every run's
/// observations satisfy this.
pub open spec fn monotonic_flag(stops: Seq<bool>) -> bool {
    forall|i: int, j: int| 0 <= i <= j < stops.len() && stops[i] ==> stops[j]
}

/// How many of the first `k` ticks delivered a batch.
pub open spec fn deliveries_up_to(stops: Seq<bool>, oks: Seq<bool>, k: int) -> nat
    decreases k,
{
    if k <= 0 {
        0
    } else {
        deliveries_up_to(stops, oks, k - 1) + if delivers_at(stops, oks, k - 1) {
            1nat
        } else {
            0nat
        }
    }
}

/// `Stopped` is terminal: once the sampler has stopped, it stays stopped,
/// whatever is observed afterwards.
pub proof fn lemma_stopped_is_terminal(stops: Seq<bool>, oks: Seq<bool>, i: int, j: int)
    requires
        0 <= i <= j,
        state_before(stops, oks, i) is Stopped,
    ensures
        state_before(stops, oks, j) is Stopped,
    decreases j - i,
{
    if i < j {
        lemma_stopped_is_terminal(stops, oks, i, j - 1);
    }
}

/// After the stop request is observed at some tick, no later tick delivers a
/// batch: the stream ends within one tick period of the flag being raised.
pub proof fn lemma_no_delivery_after_stop(stops: Seq<bool>, oks: Seq<bool>, i: int, j: int)
    requires
        monotonic_flag(stops),
        0 <= i <= j < stops.len(),
        stops[i],
    ensures
        !delivers_at(stops, oks, j),
{
    assert(stops[j]);
}

/// When the stop request is raised before the first tick completes — so the
/// flag is observed set from the second tick on — at most one batch (the one
/// from the tick already in flight) is ever delivered.
pub proof fn lemma_stop_before_first_tick(stops: Seq<bool>, oks: Seq<bool>, k: int)
    requires
        0 <= k <= stops.len(),
        forall|i: int| 1 <= i < stops.len() ==> stops[i],
    ensures
        deliveries_up_to(stops, oks, k) <= 1,
    decreases k,
{
    if k > 0 {
        lemma_stop_before_first_tick(stops, oks, k - 1);
        if k - 1 >= 1 {
            assert(stops[k - 1]);
            assert(!delivers_at(stops, oks, k - 1));
        }
    }
}

} // verus!
