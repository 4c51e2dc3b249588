//! The debounce state machine: foreground-side logic that converts a raw,
//! noisy edge event into a single settled transition.
//!
//! Debouncing works by re-sampling the live pin level after a fixed quiet
//! window rather than by counting edges, so it tolerates arbitrary
//! contact-bounce patterns with a single timer and no history buffer. A
//! settled transition is emitted only when the sampled level actually
//! differs from the previous settled level; a sample that has reverted is
//! noise and is discarded. [`lemma_one_action_per_settled_edge`] and
//! [`lemma_noise_rejection`] state the two consequences: one action per
//! settled edge, however many bounces re-trigger the window, and zero
//! actions for an edge whose level has reverted.

use vstd::prelude::*;

verus! {

/// The phase of the state machine.
///
/// `Idle` waits for an edge. The interrupt moves the machine to
/// `EdgeDetected` when it observes the monitored edge and raises the
/// event latch. The foreground, having consumed the latch, moves it to
/// `Settling` and waits out the quiet window. Re-sampling the live level
/// then either accepts the transition (`Settled`, the consumer action
/// fires exactly once, then back to `Idle`) or discards it as noise
/// (straight back to `Idle`).
#[derive(Clone, Copy, PartialEq, Eq, Structural, Debug)]
pub enum DebouncePhase {
    /// Waiting for an edge.
    Idle,
    /// The interrupt saw an edge; the foreground has not consumed it yet.
    EdgeDetected,
    /// The foreground is waiting out the quiet window.
    Settling,
    /// The re-sampled level confirmed the edge; the consumer action is
    /// being fired.
    Settled,
}

/// Per-input debounce state: the phase, and the previous settled level.
pub struct Debounce {
    phase: DebouncePhase,
    settled_level: bool,
}

/// Whether a quiet-window sample of `live` emits a settled transition,
/// given the previous settled level.
pub open spec fn sample_fires(settled: bool, live: bool) -> bool {
    live != settled
}

/// The settled level after a quiet-window sample of `live`: the sample
/// either confirms a new level or re-confirms the old one, so the settled
/// level always ends up equal to the sample.
pub open spec fn settled_after(settled: bool, live: bool) -> bool {
    live
}

/// How many settled transitions a run of quiet-window samples emits,
/// starting from the settled level `settled`.
pub open spec fn fires_count(settled: bool, samples: Seq<bool>) -> nat
    decreases samples.len(),
{
    if samples.len() == 0 {
        0
    } else {
        (if sample_fires(settled, samples.first()) { 1nat } else { 0nat })
            + fires_count(settled_after(settled, samples.first()), samples.drop_first())
    }
}

impl Debounce {
    /// The phase the machine is in.
    pub closed spec fn phase(&self) -> DebouncePhase {
        self.phase
    }

    /// The previous settled level.
    pub closed spec fn settled(&self) -> bool {
        self.settled_level
    }

    /// A machine at rest, with the given initial settled level.
    pub fn new(initial_level: bool) -> (machine: Self)
        ensures
            machine.phase() == DebouncePhase::Idle,
            machine.settled() == initial_level,
    {
        Debounce { phase: DebouncePhase::Idle, settled_level: initial_level }
    }

    /// The interrupt context observed the monitored edge (and raised the
    /// event latch). A machine already past `Idle` is left alone: the
    /// fresh edge merely re-signals the latch and coalesces.
    pub fn note_edge(&mut self)
        ensures
            final(self).phase() == (if old(self).phase() == DebouncePhase::Idle {
                DebouncePhase::EdgeDetected
            } else {
                old(self).phase()
            }),
            final(self).settled() == old(self).settled(),
    {
        if matches!(self.phase, DebouncePhase::Idle) {
            self.phase = DebouncePhase::EdgeDetected;
        }
    }

    /// The foreground consumed the event latch and begins the quiet
    /// window. The machine must not already be inside a window: the
    /// foreground only checks the latch between windows.
    pub fn begin_settling(&mut self)
        requires
            old(self).phase() == DebouncePhase::Idle
                || old(self).phase() == DebouncePhase::EdgeDetected,
        ensures
            final(self).phase() == DebouncePhase::Settling,
            final(self).settled() == old(self).settled(),
    {
        self.phase = DebouncePhase::Settling;
    }

    /// The quiet window elapsed and the live level was re-sampled. A
    /// sample that differs from the previous settled level is accepted:
    /// the machine records the new settled level, reports that the
    /// consumer action must fire, and rests in `Settled` until
    /// [`Debounce::complete`]. A sample equal to the previous settled
    /// level means the edge was noise: nothing fires, straight back to
    /// `Idle`.
    pub fn sample(&mut self, live_level: bool) -> (fire: bool)
        requires
            old(self).phase() == DebouncePhase::Settling,
        ensures
            fire == sample_fires(old(self).settled(), live_level),
            final(self).settled() == settled_after(old(self).settled(), live_level),
            final(self).phase() == (if fire {
                DebouncePhase::Settled
            } else {
                DebouncePhase::Idle
            }),
    {
        if live_level != self.settled_level {
            self.settled_level = live_level;
            self.phase = DebouncePhase::Settled;
            true
        } else {
            self.phase = DebouncePhase::Idle;
            false
        }
    }

    /// The phase the machine is in, readable at run time.
    pub fn current_phase(&self) -> (phase: DebouncePhase)
        ensures
            phase == self.phase(),
    {
        self.phase
    }

    /// The previous settled level, readable at run time.
    pub fn current_settled(&self) -> (level: bool)
        ensures
            level == self.settled(),
    {
        self.settled_level
    }

    /// The consumer action has fired; rearm for the next edge.
    pub fn complete(&mut self)
        requires
            old(self).phase() == DebouncePhase::Settled,
        ensures
            final(self).phase() == DebouncePhase::Idle,
            final(self).settled() == old(self).settled(),
    {
        self.phase = DebouncePhase::Idle;
    }

    /// The quiet window elapsed but the live level could not be sampled
    /// (the pin's cell was empty). The pass is skipped: back to `Idle`,
    /// nothing fires, the settled level stands.
    pub fn cancel(&mut self)
        requires
            old(self).phase() == DebouncePhase::Settling,
        ensures
            final(self).phase() == DebouncePhase::Idle,
            final(self).settled() == old(self).settled(),
    {
        self.phase = DebouncePhase::Idle;
    }
}

/// Noise rejection: a run of samples that all read the previous settled
/// level emits no settled transition at all. In particular an edge whose
/// live level has reverted by the time the quiet window elapses fires
/// nothing.
pub proof fn lemma_noise_rejection(settled: bool, samples: Seq<bool>)
    requires
        forall|i: int| 0 <= i < samples.len() ==> samples[i] == settled,
    ensures
        fires_count(settled, samples) == 0,
    decreases samples.len(),
{
    if samples.len() > 0 {
        lemma_noise_rejection(settled, samples.drop_first());
    }
}

/// At most one action per settled edge: an edge followed by any number of
/// bounce edges inside the quiet window makes the foreground re-sample
/// again and again, but as long as every sample reads the same new level,
/// exactly one settled transition is emitted over the whole run.
pub proof fn lemma_one_action_per_settled_edge(settled: bool, samples: Seq<bool>, level: bool)
    requires
        samples.len() >= 1,
        level != settled,
        forall|i: int| 0 <= i < samples.len() ==> samples[i] == level,
    ensures
        fires_count(settled, samples) == 1,
{
    assert(samples.first() == level);
    assert(forall|i: int| 0 <= i < samples.drop_first().len()
        ==> #[trigger] samples.drop_first()[i] == level);
    lemma_noise_rejection(level, samples.drop_first());
}

/// Appending one more sample to a run adds one fired action exactly when
/// that sample differs from the settled level the run ends with.
pub proof fn lemma_fires_count_push(settled: bool, samples: Seq<bool>, live: bool)
    ensures
        fires_count(settled, samples.push(live)) == fires_count(settled, samples)
            + (if sample_fires(settled_at_end(settled, samples), live) { 1nat } else { 0nat }),
    decreases samples.len(),
{
    if samples.len() == 0 {
        assert(samples.push(live).first() == live);
        assert(samples.push(live).drop_first() =~= Seq::<bool>::empty());
        assert(fires_count(settled_after(settled, live), Seq::<bool>::empty()) == 0);
        assert(fires_count(settled, samples) == 0);
        assert(fires_count(settled, samples.push(live))
            == (if sample_fires(settled, live) { 1nat } else { 0nat }));
    } else {
        let rest = samples.drop_first();
        let stepped = settled_after(settled, samples.first());
        assert(samples.push(live).first() == samples.first());
        assert(samples.push(live).drop_first() =~= rest.push(live));
        lemma_fires_count_push(stepped, rest, live);
        if rest.len() == 0 {
            assert(settled_at_end(stepped, rest) == samples.first());
            assert(samples.last() == samples.first());
        } else {
            assert(rest.last() == samples.last());
        }
        assert(settled_at_end(stepped, rest) == settled_at_end(settled, samples));
        assert(fires_count(settled, samples.push(live))
            == (if sample_fires(settled, samples.first()) { 1nat } else { 0nat })
                + fires_count(stepped, rest.push(live)));
    }
}

/// The settled level at the end of a run of samples: the last sample, or
/// the starting level if there was none.
pub open spec fn settled_at_end(settled: bool, samples: Seq<bool>) -> bool {
    if samples.len() == 0 {
        settled
    } else {
        samples.last()
    }
}

} // verus!
