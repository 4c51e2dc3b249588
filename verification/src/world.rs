//! The idle loop, as a simulation harness.
//!
//! The foreground's only scheduling primitive is "sleep until any
//! interrupt, then look around". Under simulation that is: advance time
//! straight to the next due event — an alarm deadline, a scripted level
//! change on the input line, or the end of a quiet window — deliver it,
//! and let the foreground inspect its flags. No polling happens in
//! between, and a wake with nothing to do is a no-op pass.
//!
//! [`run_periodic`] drives a periodic controller to a time horizon and
//! returns the exact firing times: with no reschedule failures they are
//! `d0, d0 + period, d0 + 2·period, …` — the self-rearming alarm behaves
//! as a free-running periodic source — and a rejected reschedule stops
//! the timer after the tick that suffered it.

use vstd::prelude::*;

use crate::button::ButtonEngine;
use crate::debounce::DebouncePhase;
use crate::periodic::PeriodicController;
use crate::periodic::TimerParts;
use crate::hw::SimAlarm;
use crate::hw::SimOutputPin;

verus! {

/// The latest simulated instant a scripted level change may carry, and
/// the longest quiet window a scripted run accepts. Generous for any
/// scenario — about twelve days in microseconds — while keeping every
/// sum of wake times comfortably inside the clock's range.
pub const MAX_EVENT_TIME: u64 = 0x100_0000_0000;

/// The most level changes a script may hold.
pub const MAX_EVENTS: usize = 65536;

/// One scripted change of the physical line: at instant `at`, the line
/// sits at `level`.
#[derive(Clone, Copy, PartialEq, Eq, Structural, Debug)]
pub struct PinEvent {
    /// The instant of the change.
    pub at: u64,
    /// The level the line moves to.
    pub level: bool,
}

/// Scripted changes come in strictly increasing time order.
pub open spec fn script_sorted(script: Seq<PinEvent>) -> bool {
    forall|i: int, j: int| 0 <= i < j < script.len() ==> script[i].at < script[j].at
}

/// The controller's state after `times.len()` firings of an alarm that
/// started with `first` installed and its first deadline at `d0`: every
/// firing happened exactly one period after the one before, firings up
/// to `until` have all been delivered, and the output has toggled once
/// per firing. A hardware that refuses reschedules stops after the
/// first delivered firing, disarmed.
pub open spec fn periodic_progress(
    controller: PeriodicController,
    first: TimerParts,
    d0: u64,
    until: u64,
    times: Seq<u64>,
) -> bool {
    let period = controller.period() as int;
    let n = times.len() as int;
    &&& (forall|i: int| 0 <= i < n ==> times[i] == d0 + i * period)
    &&& (1 <= n ==> d0 + (n - 1) * period <= until)
    &&& n <= until + 1
    &&& (first.alarm.accepting ==> {
        &&& controller.parts() == Some(TimerParts {
            alarm: SimAlarm {
                deadline: Some((d0 + n * period) as u64),
                pending: if n == 0 { first.alarm.pending } else { false },
                ..first.alarm
            },
            led: SimOutputPin {
                level: if n % 2 == 0 { first.led.level } else { !first.led.level },
                toggles: (first.led.toggles + n) as u64,
            },
        })
        &&& d0 + n * period <= (if n == 0 { u64::MAX as int } else { until + period })
    })
    &&& (!first.alarm.accepting ==> (n == 0 && controller.parts() == Some(first)) || (n == 1
        && controller.parts() == Some(TimerParts {
        alarm: SimAlarm { deadline: None, pending: false, ..first.alarm },
        led: SimOutputPin { level: !first.led.level, toggles: (first.led.toggles + 1) as u64 },
    })))
}

/// Drive a periodic controller until the simulated clock passes
/// `until`, delivering every alarm firing at its exact deadline. The
/// returned ghost sequence lists the firing times.
///
/// With the hardware accepting reschedules, firing `i` happens exactly
/// at `d0 + i * period` — the relative re-arm is computed from a firing
/// delivered at its own deadline, so no drift accumulates in this
/// zero-latency model — and every deadline up to `until` fires. With
/// the hardware refusing, the first due tick still fires once and the
/// timer then stops, disarmed: a missed tick, not a fault.
pub fn run_periodic(controller: &mut PeriodicController, until: u64) -> (fire_times: Ghost<
    Seq<u64>,
>)
    requires
        old(controller).is_unmasked(),
        1 <= old(controller).period(),
        until + old(controller).period() <= u64::MAX,
        (old(controller).parts() matches Some(first) ==> {
            &&& first.alarm.irq_enabled
            &&& first.led.toggles + until + 1 <= u64::MAX
        }),
    ensures
        final(controller).period() == old(controller).period(),
        final(controller).is_unmasked(),
        old(controller).parts() is None ==> final(controller).parts() is None
            && fire_times@.len() == 0,
        (old(controller).parts() matches Some(first) ==> match first.alarm.deadline {
            None => final(controller).parts() == Some(first) && fire_times@.len() == 0,
            Some(d0) => {
                let period = old(controller).period() as int;
                let n = fire_times@.len() as int;
                &&& periodic_progress(*final(controller), first, d0, until, fire_times@)
                &&& (d0 > until ==> n == 0)
                &&& (d0 <= until ==> 1 <= n)
                &&& (d0 <= until && first.alarm.accepting ==> until < d0 + n * period)
                &&& (d0 <= until && !first.alarm.accepting ==> fire_times@ == seq![d0])
            },
        }),
{
    let mut fire_times: Ghost<Seq<u64>> = Ghost(Seq::empty());
    let snapshot = controller.peek();
    let first = match snapshot {
        None => {
            return fire_times;
        },
        Some(first) => first,
    };
    let d0 = match first.alarm.deadline {
        None => {
            return fire_times;
        },
        Some(d0) => d0,
    };
    loop
        invariant
            controller.is_unmasked(),
            controller.period() == old(controller).period(),
            1 <= controller.period(),
            until + controller.period() <= u64::MAX,
            first.alarm.irq_enabled,
            first.alarm.deadline == Some(d0),
            first.led.toggles + until + 1 <= u64::MAX,
            periodic_progress(*controller, first, d0, until, fire_times@),
        ensures
            controller.is_unmasked(),
            controller.period() == old(controller).period(),
            periodic_progress(*controller, first, d0, until, fire_times@),
            (controller.parts() matches Some(parts) ==> match parts.alarm.deadline {
                None => true,
                Some(t) => t > until,
            }),
            controller.parts() is Some,
        decreases until + 1 - fire_times@.len(),
    {
        let snap = controller.peek();
        let parts = match snap {
            None => {
                proof {
                    assert(false);
                }
                break ;
            },
            Some(parts) => parts,
        };
        match parts.alarm.deadline {
            None => {
                break ;
            },
            Some(t) => {
                if t > until {
                    break ;
                }
                proof {
                    let n = fire_times@.len() as int;
                    let period = controller.period() as int;
                    assert(n <= n * period) by (nonlinear_arith)
                        requires
                            1 <= period,
                            0 <= n,
                    ;
                }
                controller.advance_to(t);
                proof {
                    let n = fire_times@.len() as int;
                    let period = controller.period() as int;
                    assert((n + 1) * period == n * period + period) by (nonlinear_arith);
                }
                fire_times = Ghost(fire_times@.push(t));
            },
        }
    }
    proof {
        let n = fire_times@.len() as int;
        let period = old(controller).period() as int;
        if first.alarm.accepting && d0 <= until && n == 0 {
            assert(false);
        }
        if !first.alarm.accepting && d0 <= until {
            assert(n == 1);
            assert(fire_times@ =~= seq![d0]);
        }
    }
    fire_times
}

/// The running state of a scripted button session: the engine stays
/// well-formed, the foreground is settling exactly when a window
/// deadline is armed, a detected-but-unconsumed edge always has the
/// latch up behind it, and the bookkeeping that bounds transition
/// counts and wake times holds — every settle cycle is paid for by a
/// scripted edge, so samples, latch and window together never outrun
/// the events delivered so far.
pub open spec fn button_session_state(
    engine: ButtonEngine,
    started: ButtonEngine,
    script: Seq<PinEvent>,
    idx: int,
    now: u64,
    settling: bool,
    deadline: u64,
) -> bool {
    let q = engine.quiet() as int;
    let cycles = engine.samples().len() - started.samples().len();
    let latched: int = if engine.latch_up() { 1 } else { 0 };
    let windows: int = if settling { 1 } else { 0 };
    &&& engine.wf()
    &&& engine.pin() is Some
    &&& engine.is_unmasked()
    &&& engine.quiet() == started.quiet()
    &&& engine.start() == started.start()
    &&& 0 <= idx <= script.len()
    &&& (settling <==> engine.phase() == DebouncePhase::Settling)
    &&& (engine.phase() == DebouncePhase::EdgeDetected ==> engine.latch_up())
    &&& engine.phase() != DebouncePhase::Settled
    &&& started.samples().is_prefix_of(engine.samples())
    &&& cycles + latched + windows <= idx
    &&& engine.transitions() <= started.transitions() + cycles
    &&& now <= MAX_EVENT_TIME + (cycles + windows) * q
    &&& (settling ==> deadline <= MAX_EVENT_TIME + (cycles + 1) * q)
    &&& (idx == 0 ==> engine.pin() == started.pin() && engine.samples() == started.samples())
    &&& (started.pin() matches Some(resting) ==> (engine.pin() matches Some(pin) && {
        &&& pin.rising_enabled
        &&& pin.falling_enabled
        &&& pin.level == (if idx == 0 {
            resting.level
        } else {
            script[idx - 1].level
        })
    }))
    &&& (started.pin() matches Some(resting) ==> ((1 <= idx && script.len() > 0 && script[0].level
        != resting.level) ==> cycles + latched + windows >= 1))
}

/// Feed a scripted waveform to a button engine and run the foreground
/// loop until everything has settled: every scripted edge is delivered
/// through the interrupt path at its instant, every quiet window is
/// waited out and re-sampled, and the run ends quiescent — latch clear,
/// machine idle. The pin ends at the script's last level, a first
/// change away from the resting level is guaranteed to be sampled, and
/// the engine's well-formedness ties the transition count to the
/// debouncing laws: it equals the number of quiet-window samples that
/// actually changed the settled level, and never exceeds the number of
/// scripted changes.
pub fn run_button(engine: &mut ButtonEngine, script: &Vec<PinEvent>)
    requires
        old(engine).wf(),
        old(engine).pin() is Some,
        (old(engine).pin() matches Some(resting) ==> resting.rising_enabled
            && resting.falling_enabled),
        old(engine).is_unmasked(),
        old(engine).phase() == DebouncePhase::Idle,
        !old(engine).latch_up(),
        script_sorted(script@),
        forall|i: int| 0 <= i < script@.len() ==> script@[i].at <= MAX_EVENT_TIME,
        old(engine).quiet() <= MAX_EVENT_TIME,
        script@.len() <= MAX_EVENTS,
        old(engine).transitions() + script@.len() <= u64::MAX,
    ensures
        final(engine).wf(),
        final(engine).pin() is Some,
        final(engine).is_unmasked(),
        final(engine).quiet() == old(engine).quiet(),
        final(engine).start() == old(engine).start(),
        final(engine).phase() == DebouncePhase::Idle,
        !final(engine).latch_up(),
        old(engine).samples().is_prefix_of(final(engine).samples()),
        final(engine).transitions() <= old(engine).transitions() + script@.len(),
        script@.len() == 0 ==> final(engine).pin() == old(engine).pin()
            && final(engine).samples() == old(engine).samples(),
        script@.len() > 0 ==> (final(engine).pin() matches Some(pin) && {
            &&& pin.level == script@[script@.len() - 1].level
            &&& pin.rising_enabled
            &&& pin.falling_enabled
        }),
        (old(engine).pin() matches Some(resting) ==> (script@.len() > 0 && script@[0].level
            != resting.level ==> final(engine).samples().len() > old(engine).samples().len())),
{
    let ghost started = *old(engine);
    let quiet = engine.quiet_value();
    let mut idx: usize = 0;
    let mut now: u64 = 0;
    let mut settling: bool = false;
    let mut deadline: u64 = 0;
    loop
        invariant
            button_session_state(*engine, started, script@, idx as int, now, settling, deadline),
            started == *old(engine),
            quiet == engine.quiet(),
            script_sorted(script@),
            forall|i: int| 0 <= i < script@.len() ==> script@[i].at <= MAX_EVENT_TIME,
            started.quiet() <= MAX_EVENT_TIME,
            script@.len() <= MAX_EVENTS,
            started.transitions() + script@.len() <= u64::MAX,
            idx <= script.len(),
        ensures
            button_session_state(*engine, started, script@, idx as int, now, settling, deadline),
            engine.phase() == DebouncePhase::Idle,
            !engine.latch_up(),
            !settling,
            idx == script@.len(),
        decreases
            script.len() - idx,
            (if engine.latch_up() { 1int } else { 0 }) + (if settling { 1int } else { 0 }),
            (if engine.latch_up() { 1int } else { 0 }),
    {
        proof {
            let q = engine.quiet() as int;
            let cycles = engine.samples().len() - started.samples().len();
            assert(0 <= cycles * q && q <= (cycles + 1) * q && q <= (cycles + 2) * q
                && cycles * q <= (cycles + 1) * q && (cycles + 1) * q <= (cycles + 2) * q
                && cycles * q + q == (cycles + 1) * q && (cycles + 1) * q + q == (cycles + 2) * q
                && (cycles + 2) * q <= 65538 * 0x100_0000_0000) by (nonlinear_arith)
                requires
                    0 <= q <= 0x100_0000_0000,
                    0 <= cycles <= 65536,
            ;
        }
        let window_is_next = settling && (idx >= script.len() || deadline <= script[idx].at);
        if window_is_next {
            now = deadline;
            settling = false;
            let ghost before = engine.samples();
            engine.on_quiet_elapsed();
            proof {
                assert(started.samples().is_prefix_of(before.push(
                    engine.samples().last(),
                )));
            }
            if engine.consume_event() {
                deadline = now + quiet;
                settling = true;
            }
        } else if idx < script.len() {
            let event = script[idx];
            idx = idx + 1;
            now = event.at;
            engine.apply_level(event.level);
            engine.on_gpio_irq();
            if !settling {
                if engine.consume_event() {
                    deadline = now + quiet;
                    settling = true;
                }
            }
        } else {
            if engine.consume_event() {
                deadline = now + quiet;
                settling = true;
            } else {
                break ;
            }
        }
    }
}

} // verus!
