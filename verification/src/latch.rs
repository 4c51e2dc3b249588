//! The event latch: a single bit, set by the interrupt context and
//! consumed by the foreground, used when the interrupt must not itself
//! perform slow work.
//!
//! There is no queueing. If the interrupt fires twice before the
//! foreground looks, both occurrences collapse into one observed event —
//! lost wakeup by design, acceptable because the debounce window
//! re-samples the pin level directly instead of trusting the edge count.
//! [`lemma_latch_coalescing`] states that collapse for any number of
//! signals and any number of subsequent takes.

use vstd::prelude::*;

verus! {

/// Single-bit, coalescing, cross-context signal. On hardware the bit is
/// an atomic with release-ordered set and acquire-ordered read-and-clear,
/// which makes anything the interrupt wrote before `signal` visible to
/// the foreground after it observes `take() == true`; the contracts here
/// capture the resulting set/read-and-clear semantics.
pub struct EventLatch {
    raised: bool,
}

impl View for EventLatch {
    type V = bool;

    closed spec fn view(&self) -> bool {
        self.raised
    }
}

impl EventLatch {
    /// A latch with no pending event.
    pub fn new() -> (latch: Self)
        ensures
            !latch@,
    {
        EventLatch { raised: false }
    }

    /// Raise the flag. Called from the interrupt context; setting an
    /// already-set flag changes nothing, so repeated signals coalesce.
    pub fn signal(&mut self)
        ensures
            final(self)@,
    {
        self.raised = true;
    }

    /// Read and clear the flag, returning the prior value. Called from
    /// the foreground context; never blocks.
    pub fn take(&mut self) -> (was_raised: bool)
        ensures
            was_raised == old(self)@,
            !final(self)@,
    {
        let was_raised = self.raised;
        self.raised = false;
        was_raised
    }

    /// Whether the flag is raised, without consuming it. For harnesses
    /// and tests; the foreground itself consumes events with
    /// [`EventLatch::take`].
    pub fn is_raised(&self) -> (raised: bool)
        ensures
            raised == self@,
    {
        self.raised
    }
}

/// One operation on an event latch, for reasoning about operation
/// histories.
pub enum LatchOp {
    /// The interrupt context raises the flag.
    Signal,
    /// The foreground context reads and clears the flag.
    Take,
}

/// The flag after a history of operations: a signal leaves it raised, a
/// take leaves it clear, whatever it held before.
pub open spec fn latch_after(start: bool, history: Seq<LatchOp>) -> bool
    decreases history.len(),
{
    if history.len() == 0 {
        start
    } else {
        match history.last() {
            LatchOp::Signal => true,
            LatchOp::Take => false,
        }
    }
}

/// The values observed by the takes in a history, in order.
pub open spec fn take_observations(start: bool, history: Seq<LatchOp>) -> Seq<bool>
    decreases history.len(),
{
    if history.len() == 0 {
        Seq::empty()
    } else {
        let earlier = take_observations(start, history.drop_last());
        match history.last() {
            LatchOp::Signal => earlier,
            LatchOp::Take => earlier.push(latch_after(start, history.drop_last())),
        }
    }
}

/// A history of `signals` raises followed by `takes` reads.
pub open spec fn signals_then_takes(signals: nat, takes: nat) -> Seq<LatchOp> {
    Seq::new(signals, |i: int| LatchOp::Signal) + Seq::new(takes, |i: int| LatchOp::Take)
}

/// Coalescing: any run of one or more signals with no intervening take is
/// observed by exactly one subsequent `take() == true` — the first take
/// after the run observes `true`, and every further take observes
/// `false`.
pub proof fn lemma_latch_coalescing(start: bool, signals: nat, takes: nat)
    requires
        signals >= 1,
    ensures
        take_observations(start, signals_then_takes(signals, takes)).len() == takes,
        forall|k: int| 0 <= k < takes
            ==> take_observations(start, signals_then_takes(signals, takes))[k] == (k == 0),
    decreases takes,
{
    let history = signals_then_takes(signals, takes);
    if takes == 0 {
        lemma_signals_only_observe_nothing(start, signals, history);
    } else {
        let shorter = signals_then_takes(signals, (takes - 1) as nat);
        assert(history.drop_last() =~= shorter);
        lemma_latch_coalescing(start, signals, (takes - 1) as nat);
        if takes == 1 {
            lemma_signals_only_observe_nothing(start, signals, shorter);
        }
    }
}

/// A history of signals alone observes nothing and leaves the flag
/// raised.
proof fn lemma_signals_only_observe_nothing(start: bool, signals: nat, history: Seq<LatchOp>)
    requires
        signals >= 1,
        history == signals_then_takes(signals, 0),
    ensures
        take_observations(start, history).len() == 0,
        latch_after(start, history),
    decreases signals,
{
    assert(history.len() == signals);
    assert(history.last() == LatchOp::Signal);
    if signals > 1 {
        let shorter = signals_then_takes((signals - 1) as nat, 0);
        assert(history.drop_last() =~= shorter);
        lemma_signals_only_observe_nothing(start, (signals - 1) as nat, shorter);
        assert(take_observations(start, history) == take_observations(start, shorter));
    } else {
        assert(history.drop_last() =~= Seq::<LatchOp>::empty());
        assert(take_observations(start, Seq::<LatchOp>::empty()).len() == 0);
        assert(take_observations(start, history) == take_observations(start, history.drop_last()));
    }
}

} // verus!
