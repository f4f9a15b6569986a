//! Network throughput: the rate computed from one sampling window, and the
//! decisions of the sampler loop.

use vstd::prelude::*;

verus! {

/// Seconds in one sampling window.
pub const WINDOW_SECONDS: u64 = 1;

/// What one interface received and transmitted, in bytes, during the window.
#[derive(Clone, Copy, Debug, PartialEq, Eq, Structural)]
pub struct InterfaceDelta {
    pub received: u64,
    pub transmitted: u64,
}

/// One throughput sample: bytes per second in each direction, and the Unix time
/// in seconds at which it was taken.
#[derive(Clone, Copy, Debug, PartialEq, Eq, Structural)]
pub struct NetworkInfo {
    pub received_rate: u64,
    pub transmitted_rate: u64,
    pub timestamp: u64,
}

/// Total bytes received over all interfaces.
pub open spec fn total_received(d: Seq<InterfaceDelta>) -> int
    decreases d.len(),
{
    if d.len() == 0 {
        0
    } else {
        total_received(d.drop_last()) + d.last().received
    }
}

/// Total bytes transmitted over all interfaces.
pub open spec fn total_transmitted(d: Seq<InterfaceDelta>) -> int
    decreases d.len(),
{
    if d.len() == 0 {
        0
    } else {
        total_transmitted(d.drop_last()) + d.last().transmitted
    }
}

/// `x` capped at the largest `u64`.
pub open spec fn saturate(x: int) -> u64 {
    if x > u64::MAX {
        u64::MAX
    } else {
        x as u64
    }
}

proof fn lemma_totals_nonnegative(d: Seq<InterfaceDelta>)
    ensures
        total_received(d) >= 0,
        total_transmitted(d) >= 0,
    decreases d.len(),
{
    if d.len() > 0 {
        lemma_totals_nonnegative(d.drop_last());
    }
}

/// The sample of one window. The window lasts one second, so the summed
/// byte deltas are the rates; a total beyond `u64` is capped. A clock that
/// could not be read gives timestamp 0.
pub fn network_info(deltas: &Vec<InterfaceDelta>, now: Option<u64>) -> (r: NetworkInfo)
    ensures
        r.received_rate == saturate(total_received(deltas@)),
        r.transmitted_rate == saturate(total_transmitted(deltas@)),
        r.timestamp == match now {
            Some(t) => t,
            None => 0,
        },
{
    let mut received: u64 = 0;
    let mut transmitted: u64 = 0;
    let mut i: usize = 0;
    while i < deltas.len()
        invariant
            0 <= i <= deltas@.len(),
            received == saturate(total_received(deltas@.take(i as int))),
            transmitted == saturate(total_transmitted(deltas@.take(i as int))),
        decreases deltas@.len() - i,
    {
        proof {
            assert(deltas@.take(i as int + 1).drop_last() == deltas@.take(i as int));
            lemma_totals_nonnegative(deltas@.take(i as int));
        }
        received = received.saturating_add(deltas[i].received);
        transmitted = transmitted.saturating_add(deltas[i].transmitted);
        i = i + 1;
    }
    assert(deltas@.take(deltas@.len() as int) == deltas@);
    let timestamp = match now {
        Some(t) => t,
        None => 0,
    };
    NetworkInfo { received_rate: received, transmitted_rate: transmitted, timestamp }
}

/// With the counters unchanged across the window every rate is zero.
pub proof fn lemma_idle_window_rate_zero(deltas: Seq<InterfaceDelta>)
    requires
        forall|k: int| 0 <= k < deltas.len() ==> (#[trigger] deltas[k]).received == 0
            && deltas[k].transmitted == 0,
    ensures
        saturate(total_received(deltas)) == 0,
        saturate(total_transmitted(deltas)) == 0,
    decreases deltas.len(),
{
    if deltas.len() > 0 {
        lemma_idle_window_rate_zero(deltas.drop_last());
        assert(deltas[deltas.len() - 1].received == 0);
    }
}

/// The sampler's phase: between windows, or inside one.
#[derive(Clone, Copy, Debug, PartialEq, Eq, Structural)]
pub enum SamplerPhase {
    Idle,
    Sampling,
}

/// What the sampler is told happened.
#[derive(Debug)]
pub enum SamplerEvent {
    /// A fresh interface list was read: the baseline of the window.
    BaselineRead,
    /// The window has elapsed and the counters were read again.
    WindowClosed { deltas: Vec<InterfaceDelta>, now: Option<u64> },
}

/// What the sampler asks to be done next.
#[derive(Clone, Copy, Debug, PartialEq, Eq, Structural)]
pub enum SamplerAction {
    /// Enumerate the interfaces afresh and read their counters.
    ReadBaseline,
    /// Sleep for this many seconds, then read the counters again.
    Wait { seconds: u64 },
    /// Push this sample to the listeners; a failed push is only logged.
    Emit { info: NetworkInfo },
}

/// The phase and action that follow `event` in `phase`.
pub open spec fn sampler_next(phase: SamplerPhase, event: SamplerEvent) -> (SamplerPhase, SamplerAction) {
    match event {
        SamplerEvent::BaselineRead => (SamplerPhase::Sampling, SamplerAction::Wait { seconds: WINDOW_SECONDS }),
        SamplerEvent::WindowClosed { deltas, now } => match phase {
            SamplerPhase::Sampling => (SamplerPhase::Idle, SamplerAction::Emit {
                info: NetworkInfo {
                    received_rate: saturate(total_received(deltas@)),
                    transmitted_rate: saturate(total_transmitted(deltas@)),
                    timestamp: match now {
                        Some(t) => t,
                        None => 0,
                    },
                },
            }),
            SamplerPhase::Idle => (SamplerPhase::Idle, SamplerAction::ReadBaseline),
        },
    }
}

/// One step of the sampler loop. A baseline starts a window of one second
/// (a repeated baseline restarts it); the close of a window emits its sample
/// and returns to idle; a close with no window open asks for a baseline.
pub fn sampler_step(phase: SamplerPhase, event: SamplerEvent) -> (r: (SamplerPhase, SamplerAction))
    ensures
        r == sampler_next(phase, event),
{
    match event {
        SamplerEvent::BaselineRead => (SamplerPhase::Sampling, SamplerAction::Wait { seconds: WINDOW_SECONDS }),
        SamplerEvent::WindowClosed { deltas, now } => match phase {
            SamplerPhase::Sampling => {
                let info = network_info(&deltas, now);
                (SamplerPhase::Idle, SamplerAction::Emit { info })
            },
            SamplerPhase::Idle => (SamplerPhase::Idle, SamplerAction::ReadBaseline),
        },
    }
}

/// Closing an open window emits one sample whose rates are the per-interface
/// deltas summed (when the sums fit in 64 bits), and zero in both directions
/// when no counter moved; the sampler then waits for a new baseline.
pub proof fn lemma_window_emits_summed_deltas(deltas: Vec<InterfaceDelta>, now: Option<u64>)
    ensures
        ({
            let (next, action) = sampler_next(SamplerPhase::Sampling, SamplerEvent::WindowClosed { deltas, now });
            &&& next == SamplerPhase::Idle
            &&& action is Emit
            &&& total_received(deltas@) <= u64::MAX ==> action->info.received_rate == total_received(deltas@)
            &&& total_transmitted(deltas@) <= u64::MAX ==> action->info.transmitted_rate == total_transmitted(deltas@)
            &&& (forall|k: int| 0 <= k < deltas@.len() ==> (#[trigger] deltas@[k]).received == 0
                && deltas@[k].transmitted == 0) ==> action->info.received_rate == 0
                && action->info.transmitted_rate == 0
        }),
{
    lemma_totals_nonnegative(deltas@);
    if forall|k: int| 0 <= k < deltas@.len() ==> (#[trigger] deltas@[k]).received == 0
        && deltas@[k].transmitted == 0 {
        lemma_idle_window_rate_zero(deltas@);
    }
}

} // verus!
