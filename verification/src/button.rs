//! The button engine: the guarded input pin, the event latch and the
//! debounce state machine wired together.
//!
//! The interrupt side is minimal and non-blocking: it clears the
//! hardware pending bits and raises the latch. All time-consuming
//! settling work happens in the foreground, which consumes the latch,
//! waits out the quiet window, and re-samples the live level under the
//! exclusion scope before trusting it. The engine keeps a ghost record
//! of every quiet-window sample, and its well-formedness ties the number
//! of consumer actions fired to [`crate::debounce::fires_count`] over
//! that record — the bridge between the running engine and the
//! debouncing laws.

use vstd::prelude::*;

use crate::debounce::Debounce;
use crate::debounce::DebouncePhase;
use crate::debounce::fires_count;
use crate::debounce::lemma_fires_count_push;
use crate::debounce::sample_fires;
use crate::debounce::settled_at_end;
use crate::guard::GuardedCell;
use crate::hw::Edge;
use crate::latch::EventLatch;
use crate::hw::SimInputPin;
use crate::hw::SimOutputPin;
use crate::hw::pin_after_level;

verus! {

/// The pin state the interrupt service routine leaves behind: both edge
/// pending bits cleared, everything else untouched.
pub open spec fn pin_after_isr(pin: SimInputPin) -> SimInputPin {
    SimInputPin { rising_pending: false, falling_pending: false, ..pin }
}

/// Whether the interrupt service routine finds a monitored edge pending.
pub open spec fn isr_saw_edge(pin: SimInputPin) -> bool {
    pin.rising_pending || pin.falling_pending
}

/// A debounced input: the guarded pin shared with the interrupt context,
/// the latch that crosses the two contexts, the foreground-side debounce
/// machine, and the output the consumer action toggles.
pub struct ButtonEngine {
    cell: GuardedCell<SimInputPin>,
    latch: EventLatch,
    debounce: Debounce,
    led: SimOutputPin,
    quiet_window: u64,
    unmasked: bool,
    settled_transitions: u64,
    start_level: Ghost<bool>,
    sample_record: Ghost<Seq<bool>>,
}

impl ButtonEngine {
    /// The guarded pin, if it has been installed.
    pub closed spec fn pin(&self) -> Option<SimInputPin> {
        self.cell@
    }

    /// Whether the event latch is raised.
    pub closed spec fn latch_up(&self) -> bool {
        self.latch@
    }

    /// The debounce machine's phase.
    pub closed spec fn phase(&self) -> DebouncePhase {
        self.debounce.phase()
    }

    /// The current settled level.
    pub closed spec fn settled(&self) -> bool {
        self.debounce.settled()
    }

    /// The output the consumer action drives.
    pub closed spec fn led(&self) -> SimOutputPin {
        self.led
    }

    /// The quiet window, in the simulation's time unit.
    pub closed spec fn quiet(&self) -> u64 {
        self.quiet_window
    }

    /// Whether the pin's interrupt line is unmasked at the interrupt
    /// controller.
    pub closed spec fn is_unmasked(&self) -> bool {
        self.unmasked
    }

    /// How many settled transitions have fired.
    pub closed spec fn transitions(&self) -> u64 {
        self.settled_transitions
    }

    /// The settled level the engine started from.
    pub closed spec fn start(&self) -> bool {
        self.start_level@
    }

    /// Every quiet-window sample taken so far, in order.
    pub closed spec fn samples(&self) -> Seq<bool> {
        self.sample_record@
    }

    /// Well-formedness: the settled level is the last sample (or the
    /// starting level), and the transition count — which is also the
    /// output's toggle count — is exactly the number of firing samples.
    pub open spec fn wf(&self) -> bool {
        &&& 1 <= self.quiet()
        &&& self.settled() == settled_at_end(self.start(), self.samples())
        &&& self.transitions() == fires_count(self.start(), self.samples())
        &&& self.led().toggles == self.transitions()
    }

    /// An engine with no pin installed yet, resting at `initial_level`.
    pub fn new(quiet_window: u64, initial_level: bool) -> (engine: Self)
        requires
            1 <= quiet_window,
        ensures
            engine.wf(),
            engine.pin() is None,
            !engine.latch_up(),
            engine.phase() == DebouncePhase::Idle,
            engine.settled() == initial_level,
            engine.start() == initial_level,
            engine.samples() == Seq::<bool>::empty(),
            engine.transitions() == 0,
            engine.led() == (SimOutputPin { level: false, toggles: 0 }),
            engine.quiet() == quiet_window,
            !engine.is_unmasked(),
    {
        let engine = ButtonEngine {
            cell: GuardedCell::new(),
            latch: EventLatch::new(),
            debounce: Debounce::new(initial_level),
            led: SimOutputPin::new(),
            quiet_window,
            unmasked: false,
            settled_transitions: 0,
            start_level: Ghost(initial_level),
            sample_record: Ghost(Seq::empty()),
        };
        proof {
            assert(fires_count(initial_level, Seq::<bool>::empty()) == 0);
        }
        engine
    }

    /// Foreground bring-up: watch both edge directions on the pin and
    /// move it into the guarded cell. Called exactly once, before
    /// `unmask`.
    pub fn init(&mut self, pin: SimInputPin)
        requires
            old(self).pin() is None,
        ensures
            final(self).pin() == Some(SimInputPin {
                rising_enabled: true,
                falling_enabled: true,
                ..pin
            }),
            final(self).latch_up() == old(self).latch_up(),
            final(self).phase() == old(self).phase(),
            final(self).settled() == old(self).settled(),
            final(self).led() == old(self).led(),
            final(self).quiet() == old(self).quiet(),
            final(self).is_unmasked() == old(self).is_unmasked(),
            final(self).transitions() == old(self).transitions(),
            final(self).start() == old(self).start(),
            final(self).samples() == old(self).samples(),
            old(self).wf() ==> final(self).wf(),
    {
        let mut pin = pin;
        pin.enable_interrupt(Edge::Falling);
        pin.enable_interrupt(Edge::Rising);
        self.cell.init(pin);
    }

    /// Unmask the pin's line at the interrupt controller. Called once by
    /// the foreground, only after the cell is populated.
    pub fn unmask(&mut self)
        ensures
            final(self).is_unmasked(),
            final(self).pin() == old(self).pin(),
            final(self).latch_up() == old(self).latch_up(),
            final(self).phase() == old(self).phase(),
            final(self).settled() == old(self).settled(),
            final(self).led() == old(self).led(),
            final(self).quiet() == old(self).quiet(),
            final(self).transitions() == old(self).transitions(),
            final(self).start() == old(self).start(),
            final(self).samples() == old(self).samples(),
            old(self).wf() ==> final(self).wf(),
    {
        self.unmasked = true;
    }

    /// The physical line moves to `new_level`: the hardware records the
    /// edge in the pin's pending bits. With no pin installed the change
    /// is lost, as it would be on hardware that was never configured.
    pub fn apply_level(&mut self, new_level: bool)
        ensures
            old(self).pin() is None ==> final(self).pin() is None,
            (old(self).pin() matches Some(pin)
                ==> final(self).pin() == Some(pin_after_level(pin, new_level))),
            final(self).latch_up() == old(self).latch_up(),
            final(self).phase() == old(self).phase(),
            final(self).settled() == old(self).settled(),
            final(self).led() == old(self).led(),
            final(self).quiet() == old(self).quiet(),
            final(self).is_unmasked() == old(self).is_unmasked(),
            final(self).transitions() == old(self).transitions(),
            final(self).start() == old(self).start(),
            final(self).samples() == old(self).samples(),
            old(self).wf() ==> final(self).wf(),
    {
        let _ = self.cell.with_mut((|pin: SimInputPin| -> (out: (SimInputPin, bool))
            ensures
                out == (pin_after_level(pin, new_level), true),
            {
                let mut pin = pin;
                pin.apply_level(new_level);
                (pin, true)
            }));
    }

    /// The interrupt service routine. Under the exclusion scope it asks
    /// which monitored edge is pending, clears the hardware pending
    /// bits, and — if there was a real edge — raises the event latch;
    /// nothing slow happens here. An empty cell (the interrupt fired
    /// before `init`) and a spurious interrupt (no pending edge) are
    /// both skipped harmlessly.
    pub fn on_gpio_irq(&mut self)
        ensures
            old(self).pin() is None ==> final(self).pin() is None
                && final(self).latch_up() == old(self).latch_up()
                && final(self).phase() == old(self).phase(),
            (old(self).pin() matches Some(pin) ==> {
                &&& final(self).pin() == Some(pin_after_isr(pin))
                &&& final(self).latch_up() == (old(self).latch_up() || isr_saw_edge(pin))
                &&& final(self).phase() == (if isr_saw_edge(pin)
                        && old(self).phase() == DebouncePhase::Idle {
                    DebouncePhase::EdgeDetected
                } else {
                    old(self).phase()
                })
            }),
            final(self).settled() == old(self).settled(),
            final(self).led() == old(self).led(),
            final(self).quiet() == old(self).quiet(),
            final(self).is_unmasked() == old(self).is_unmasked(),
            final(self).transitions() == old(self).transitions(),
            final(self).start() == old(self).start(),
            final(self).samples() == old(self).samples(),
            old(self).wf() ==> final(self).wf(),
    {
        let saw = self.cell.with_mut((|pin: SimInputPin| -> (out: (SimInputPin, bool))
            ensures
                out == (pin_after_isr(pin), isr_saw_edge(pin)),
            {
                let mut pin = pin;
                let mut saw_edge = false;
                if pin.interrupt_status(Edge::Falling) {
                    pin.clear_interrupt(Edge::Falling);
                    saw_edge = true;
                }
                if pin.interrupt_status(Edge::Rising) {
                    pin.clear_interrupt(Edge::Rising);
                    saw_edge = true;
                }
                (pin, saw_edge)
            }));
        match saw {
            Some(true) => {
                self.latch.signal();
                self.debounce.note_edge();
            },
            _ => {},
        }
    }

    /// The foreground, awake, checks the latch. A raised latch means an
    /// edge arrived since the last look: consume it and begin the quiet
    /// window. A clear latch is a spurious wake — a no-op pass. The
    /// foreground only looks between windows, so the machine is not
    /// already settling.
    pub fn consume_event(&mut self) -> (began_settling: bool)
        requires
            old(self).phase() == DebouncePhase::Idle
                || old(self).phase() == DebouncePhase::EdgeDetected,
        ensures
            began_settling == old(self).latch_up(),
            !final(self).latch_up(),
            final(self).phase() == (if began_settling {
                DebouncePhase::Settling
            } else {
                old(self).phase()
            }),
            final(self).pin() == old(self).pin(),
            final(self).settled() == old(self).settled(),
            final(self).led() == old(self).led(),
            final(self).quiet() == old(self).quiet(),
            final(self).is_unmasked() == old(self).is_unmasked(),
            final(self).transitions() == old(self).transitions(),
            final(self).start() == old(self).start(),
            final(self).samples() == old(self).samples(),
            old(self).wf() ==> final(self).wf(),
    {
        if self.latch.take() {
            self.debounce.begin_settling();
            true
        } else {
            false
        }
    }

    /// The quiet window elapsed: re-sample the live level under the
    /// exclusion scope and let the debounce machine judge it. A sample
    /// that differs from the settled level fires the consumer action —
    /// one toggle — exactly once; a reverted sample is noise and fires
    /// nothing. An empty cell skips the pass without a sample.
    pub fn on_quiet_elapsed(&mut self)
        requires
            old(self).phase() == DebouncePhase::Settling,
            old(self).wf(),
            old(self).transitions() < u64::MAX,
        ensures
            final(self).wf(),
            final(self).phase() == DebouncePhase::Idle,
            final(self).pin() == old(self).pin(),
            final(self).latch_up() == old(self).latch_up(),
            final(self).quiet() == old(self).quiet(),
            final(self).is_unmasked() == old(self).is_unmasked(),
            final(self).start() == old(self).start(),
            old(self).pin() is None ==> {
                &&& final(self).samples() == old(self).samples()
                &&& final(self).settled() == old(self).settled()
                &&& final(self).transitions() == old(self).transitions()
                &&& final(self).led() == old(self).led()
            },
            (old(self).pin() matches Some(pin) ==> {
                &&& final(self).samples() == old(self).samples().push(pin.level)
                &&& final(self).settled() == pin.level
                &&& final(self).transitions() == old(self).transitions()
                    + (if sample_fires(old(self).settled(), pin.level) { 1int } else { 0int })
            }),
    {
        let sampled = self.cell.with_mut((|pin: SimInputPin| -> (out: (SimInputPin, bool))
            ensures
                out == (pin, pin.level),
            {
                let level = pin.read_level();
                (pin, level)
            }));
        match sampled {
            None => {
                self.debounce.cancel();
            },
            Some(level) => {
                let ghost earlier = self.sample_record@;
                let fired = self.debounce.sample(level);
                self.sample_record = Ghost(earlier.push(level));
                proof {
                    lemma_fires_count_push(self.start_level@, earlier, level);
                }
                if fired {
                    self.led.toggle();
                    self.settled_transitions = self.settled_transitions + 1;
                    self.debounce.complete();
                }
            },
        }
    }

    /// The quiet window, readable at run time.
    pub fn quiet_value(&self) -> (window: u64)
        ensures
            window == self.quiet(),
    {
        self.quiet_window
    }

    /// How many settled transitions have fired, readable at run time.
    pub fn transition_count(&self) -> (count: u64)
        ensures
            count == self.transitions(),
    {
        self.settled_transitions
    }

    /// The current settled level, readable at run time.
    pub fn settled_level(&self) -> (level: bool)
        ensures
            level == self.settled(),
    {
        self.debounce.current_settled()
    }

    /// Whether the output is currently driven high.
    pub fn led_is_high(&self) -> (high: bool)
        ensures
            high == self.led().level,
    {
        self.led.is_high()
    }

    /// How many times the output has been toggled.
    pub fn led_toggle_count(&self) -> (count: u64)
        ensures
            count == self.led().toggles,
    {
        self.led.toggle_count()
    }

    /// Whether an event is latched, readable at run time.
    pub fn latch_pending(&self) -> (up: bool)
        ensures
            up == self.latch_up(),
    {
        self.latch.is_raised()
    }
}

} // verus!
