//! The periodic re-arm controller: interrupt-side logic that makes a
//! one-shot hardware alarm behave as a free-running periodic event
//! source.
//!
//! On each firing the controller, inside one exclusion scope and in this
//! order, clears the interrupt-pending condition, performs the bound
//! action (toggling the output), and reschedules the alarm a relative
//! `period` ahead of now. The order matters: all three operations touch
//! the same guarded resource and must appear atomic to the foreground.
//! A failed reschedule is a missed tick, not a fault: the controller
//! still returns, and the timer simply stops firing.

use vstd::prelude::*;

use crate::guard::GuardedCell;
use crate::hw::SimAlarm;
use crate::hw::alarm_due;
use crate::hw::alarm_elapsed;
use crate::hw::SimOutputPin;

verus! {

/// The resource a periodic controller guards: the alarm and the output
/// it toggles, held together so that clear, toggle and reschedule all
/// happen under one exclusion scope.
#[derive(Clone, Copy, PartialEq, Eq, Structural, Debug)]
pub struct TimerParts {
    /// The one-shot alarm being re-armed.
    pub alarm: SimAlarm,
    /// The output the bound action toggles.
    pub led: SimOutputPin,
}

/// What one firing of the interrupt leaves behind: pending cleared, the
/// output toggled, and — when the hardware accepted the request — the
/// alarm re-armed for `now + period`. A rejected reschedule leaves the
/// alarm disarmed: the tick is missed and no retry is attempted.
pub open spec fn fire_step(parts: TimerParts, now: u64, period: u64) -> TimerParts {
    let cleared = SimAlarm { pending: false, ..parts.alarm };
    let rearmed = if cleared.accepting {
        SimAlarm { deadline: Some((now + period) as u64), ..cleared }
    } else {
        cleared
    };
    TimerParts {
        alarm: rearmed,
        led: SimOutputPin {
            level: !parts.led.level,
            toggles: (parts.led.toggles + 1) as u64,
        },
    }
}

/// A periodic controller: a guarded cell holding the alarm and output,
/// the period, and the interrupt-controller mask for the alarm's line.
pub struct PeriodicController {
    cell: GuardedCell<TimerParts>,
    period: u64,
    unmasked: bool,
}

impl PeriodicController {
    /// The guarded resource, if it has been installed.
    pub closed spec fn parts(&self) -> Option<TimerParts> {
        self.cell@
    }

    /// The firing period.
    pub closed spec fn period(&self) -> u64 {
        self.period
    }

    /// Whether the alarm's interrupt line is unmasked at the interrupt
    /// controller.
    pub closed spec fn is_unmasked(&self) -> bool {
        self.unmasked
    }

    /// A controller whose cell is still empty and whose interrupt line
    /// is still masked.
    pub fn new(period: u64) -> (controller: Self)
        requires
            1 <= period,
        ensures
            controller.parts() is None,
            controller.period() == period,
            !controller.is_unmasked(),
    {
        PeriodicController { cell: GuardedCell::new(), period, unmasked: false }
    }

    /// Foreground bring-up: schedule the first firing one period ahead,
    /// enable the alarm interrupt, and move alarm and output into the
    /// guarded cell. Called exactly once, before `unmask`.
    pub fn init(&mut self, alarm: SimAlarm, led: SimOutputPin, now: u64)
        requires
            old(self).parts() is None,
            now + old(self).period() <= u64::MAX,
        ensures
            final(self).period() == old(self).period(),
            final(self).is_unmasked() == old(self).is_unmasked(),
            final(self).parts() == Some(TimerParts {
                alarm: SimAlarm {
                    deadline: if alarm.accepting {
                        Some((now + old(self).period()) as u64)
                    } else {
                        alarm.deadline
                    },
                    irq_enabled: true,
                    ..alarm
                },
                led: led,
            }),
    {
        let mut alarm = alarm;
        let _ = alarm.schedule(now, self.period);
        alarm.enable_interrupt();
        self.cell.init(TimerParts { alarm, led });
    }

    /// Unmask the alarm's line at the interrupt controller. Called once
    /// by the foreground, only after the cell is populated.
    pub fn unmask(&mut self)
        ensures
            final(self).parts() == old(self).parts(),
            final(self).period() == old(self).period(),
            final(self).is_unmasked(),
    {
        self.unmasked = true;
    }

    /// The interrupt service routine. Under one exclusion scope: clear
    /// the pending condition, toggle the output, reschedule the alarm
    /// `period` after `now`. An empty cell — the interrupt fired before
    /// `init` — is skipped harmlessly.
    pub fn on_timer_irq(&mut self, now: u64)
        requires
            now + old(self).period() <= u64::MAX,
            (old(self).parts() matches Some(parts) ==> parts.led.toggles < u64::MAX),
        ensures
            final(self).period() == old(self).period(),
            final(self).is_unmasked() == old(self).is_unmasked(),
            old(self).parts() is None ==> final(self).parts() is None,
            (old(self).parts() matches Some(parts)
                ==> final(self).parts() == Some(fire_step(parts, now, old(self).period()))),
    {
        let period = self.period;
        let _ = self.cell.with_mut(
            (|parts: TimerParts| -> (out: (TimerParts, bool))
                requires
                    parts.led.toggles < u64::MAX,
                    now + period <= u64::MAX,
                ensures
                    out == (fire_step(parts, now, period), parts.alarm.accepting),
                {
                    let mut parts = parts;
                    parts.alarm.clear_interrupt();
                    parts.led.toggle();
                    let accepted = parts.alarm.schedule(now, period);
                    (parts, accepted)
                }),
        );
    }

    /// The hardware alarm queue becomes occupied: from here on schedule
    /// requests are refused, so the next firing's reschedule is dropped
    /// and the timer stops. Fault injection for scenarios that exercise
    /// the missed-tick path.
    pub fn make_busy(&mut self)
        ensures
            final(self).period() == old(self).period(),
            final(self).is_unmasked() == old(self).is_unmasked(),
            old(self).parts() is None ==> final(self).parts() is None,
            (old(self).parts() matches Some(parts) ==> final(self).parts() == Some(TimerParts {
                alarm: SimAlarm { accepting: false, ..parts.alarm },
                ..parts
            })),
    {
        let _ = self.cell.with_mut((|parts: TimerParts| -> (out: (TimerParts, bool))
            ensures
                out == ((TimerParts {
                    alarm: SimAlarm { accepting: false, ..parts.alarm },
                    ..parts
                }), true),
            {
                let mut parts = parts;
                parts.alarm.make_busy();
                (parts, true)
            }));
    }

    /// Time has advanced to `now`: the hardware consumes a reached
    /// deadline and raises the pending condition, and — when the alarm's
    /// interrupt is enabled and its line unmasked — the interrupt
    /// service routine runs. A deadline still in the future changes
    /// nothing.
    pub fn advance_to(&mut self, now: u64)
        requires
            now + old(self).period() <= u64::MAX,
            (old(self).parts() matches Some(parts) ==> parts.led.toggles < u64::MAX),
        ensures
            final(self).period() == old(self).period(),
            final(self).is_unmasked() == old(self).is_unmasked(),
            old(self).parts() is None ==> final(self).parts() is None,
            (old(self).parts() matches Some(parts) ==> {
                let elapsed = TimerParts { alarm: alarm_elapsed(parts.alarm, now), ..parts };
                if alarm_due(parts.alarm, now) && parts.alarm.irq_enabled
                    && old(self).is_unmasked() {
                    final(self).parts() == Some(fire_step(elapsed, now, old(self).period()))
                } else {
                    final(self).parts() == Some(elapsed)
                }
            }),
    {
        let due = self.cell.with_mut((|parts: TimerParts| -> (out: (TimerParts, bool))
            ensures
                out == ((TimerParts { alarm: alarm_elapsed(parts.alarm, now), ..parts }),
                    alarm_due(parts.alarm, now) && parts.alarm.irq_enabled),
            {
                let mut parts = parts;
                let was_due = match parts.alarm.deadline {
                    Some(t) => t <= now,
                    None => false,
                };
                parts.alarm.elapse_to(now);
                (parts, was_due && parts.alarm.irq_enabled)
            }));
        match due {
            Some(true) => {
                if self.unmasked {
                    self.on_timer_irq(now);
                }
            },
            _ => {},
        }
    }

    /// A copy of the guarded resource, taken under the exclusion scope,
    /// for the simulation harness and for tests to inspect.
    pub fn peek(&mut self) -> (snapshot: Option<TimerParts>)
        ensures
            final(self).parts() == old(self).parts(),
            final(self).period() == old(self).period(),
            final(self).is_unmasked() == old(self).is_unmasked(),
            snapshot == old(self).parts(),
    {
        self.cell.with_mut((|parts: TimerParts| -> (out: (TimerParts, TimerParts))
            ensures
                out == (parts, parts),
            {
                (parts, parts)
            }))
    }
}

} // verus!
