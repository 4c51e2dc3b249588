//! Simulated hardware capabilities.
//!
//! The engine consumes three capability sets — an edge-triggered input,
//! a one-shot alarm, and a digital output — and is agnostic to which
//! concrete peripheral implements them. The types here model those
//! capabilities as plain state with exact contracts, so the engine's
//! decisions can be verified against them; on hardware the same calls go
//! to the peripheral registers.

use vstd::prelude::*;

verus! {

/// The two edge directions an input can be watched for.
#[derive(Clone, Copy, PartialEq, Eq, Structural, Debug)]
pub enum Edge {
    /// The level went from low to high.
    Rising,
    /// The level went from high to low.
    Falling,
}

/// One-shot alarm capability: schedule a single firing a relative
/// duration ahead, observe and clear its interrupt-pending condition.
///
/// `accepting` models whether the hardware alarm queue can take another
/// schedule request; when it cannot, a schedule call fails and the alarm
/// simply stays unarmed.
#[derive(Clone, Copy, PartialEq, Eq, Structural, Debug)]
pub struct SimAlarm {
    /// The absolute time the alarm will fire at, if armed.
    pub deadline: Option<u64>,
    /// The interrupt-pending condition.
    pub pending: bool,
    /// Whether the alarm raises its interrupt line at all.
    pub irq_enabled: bool,
    /// Whether the hardware accepts schedule requests.
    pub accepting: bool,
}

impl SimAlarm {
    /// A disarmed alarm with nothing pending.
    pub fn new() -> (alarm: Self)
        ensures
            alarm == (SimAlarm {
                deadline: None,
                pending: false,
                irq_enabled: false,
                accepting: true,
            }),
    {
        SimAlarm { deadline: None, pending: false, irq_enabled: false, accepting: true }
    }

    /// Arm the alarm to fire `delta` after `now`, a relative schedule.
    /// Fails, leaving the alarm untouched, when the hardware is not
    /// accepting requests; the caller treats that as a missed tick, not
    /// a fault.
    pub fn schedule(&mut self, now: u64, delta: u64) -> (accepted: bool)
        requires
            now + delta <= u64::MAX,
        ensures
            accepted == old(self).accepting,
            accepted ==> *final(self) == (SimAlarm { deadline: Some((now + delta) as u64), ..*old(self) }),
            !accepted ==> *final(self) == *old(self),
    {
        if self.accepting {
            self.deadline = Some(now + delta);
            true
        } else {
            false
        }
    }

    /// Drop the interrupt-pending condition.
    pub fn clear_interrupt(&mut self)
        ensures
            *final(self) == (SimAlarm { pending: false, ..*old(self) }),
    {
        self.pending = false;
    }

    /// Let the alarm raise its interrupt line when it fires.
    pub fn enable_interrupt(&mut self)
        ensures
            *final(self) == (SimAlarm { irq_enabled: true, ..*old(self) }),
    {
        self.irq_enabled = true;
    }

    /// Stop the hardware from accepting further schedule requests. This
    /// is the simulation's fault-injection knob for a busy alarm queue.
    pub fn make_busy(&mut self)
        ensures
            *final(self) == (SimAlarm { accepting: false, ..*old(self) }),
    {
        self.accepting = false;
    }

    /// The hardware side of a firing: once `now` reaches the deadline,
    /// the one-shot arming is consumed and the pending condition comes
    /// up. Before the deadline nothing happens.
    pub fn elapse_to(&mut self, now: u64)
        ensures
            *final(self) == alarm_elapsed(*old(self), now),
    {
        match self.deadline {
            Some(t) => {
                if t <= now {
                    self.deadline = None;
                    self.pending = true;
                }
            },
            None => {},
        }
    }
}

/// Whether the alarm's deadline has been reached at time `now`.
pub open spec fn alarm_due(alarm: SimAlarm, now: u64) -> bool {
    match alarm.deadline {
        Some(t) => t <= now,
        None => false,
    }
}

/// The alarm once time has advanced to `now`: a reached deadline is
/// consumed (the alarm is one-shot) and the pending condition comes up.
pub open spec fn alarm_elapsed(alarm: SimAlarm, now: u64) -> SimAlarm {
    if alarm_due(alarm, now) {
        SimAlarm { deadline: None, pending: true, ..alarm }
    } else {
        alarm
    }
}

/// Edge-triggered input capability: a live level, and per-direction
/// interrupt enables and pending bits.
#[derive(Clone, Copy, PartialEq, Eq, Structural, Debug)]
pub struct SimInputPin {
    /// The live level of the line.
    pub level: bool,
    /// Whether a rising edge raises the pending condition.
    pub rising_enabled: bool,
    /// Whether a falling edge raises the pending condition.
    pub falling_enabled: bool,
    /// Pending condition for a rising edge.
    pub rising_pending: bool,
    /// Pending condition for a falling edge.
    pub falling_pending: bool,
}

/// The pin state after the physical line moves to `new_level`: an actual
/// change raises the pending bit of the matching direction if that
/// direction is enabled; re-asserting the current level is no edge.
pub open spec fn pin_after_level(pin: SimInputPin, new_level: bool) -> SimInputPin {
    if new_level == pin.level {
        pin
    } else if new_level {
        SimInputPin { level: true, rising_pending: pin.rising_pending || pin.rising_enabled, ..pin }
    } else {
        SimInputPin {
            level: false,
            falling_pending: pin.falling_pending || pin.falling_enabled,
            ..pin
        }
    }
}

impl SimInputPin {
    /// A quiet input resting at `level`, with both edge interrupts
    /// disabled.
    pub fn new(level: bool) -> (pin: Self)
        ensures
            pin == (SimInputPin {
                level: level,
                rising_enabled: false,
                falling_enabled: false,
                rising_pending: false,
                falling_pending: false,
            }),
    {
        SimInputPin {
            level,
            rising_enabled: false,
            falling_enabled: false,
            rising_pending: false,
            falling_pending: false,
        }
    }

    /// Let edges of the given direction raise the pending condition.
    pub fn enable_interrupt(&mut self, edge: Edge)
        ensures
            edge == Edge::Rising
                ==> *final(self) == (SimInputPin { rising_enabled: true, ..*old(self) }),
            edge == Edge::Falling
                ==> *final(self) == (SimInputPin { falling_enabled: true, ..*old(self) }),
    {
        match edge {
            Edge::Rising => self.rising_enabled = true,
            Edge::Falling => self.falling_enabled = true,
        }
    }

    /// Whether an edge of the given direction is pending.
    pub fn interrupt_status(&self, edge: Edge) -> (pending: bool)
        ensures
            pending == (match edge {
                Edge::Rising => self.rising_pending,
                Edge::Falling => self.falling_pending,
            }),
    {
        match edge {
            Edge::Rising => self.rising_pending,
            Edge::Falling => self.falling_pending,
        }
    }

    /// Drop the pending condition of the given direction.
    pub fn clear_interrupt(&mut self, edge: Edge)
        ensures
            edge == Edge::Rising
                ==> *final(self) == (SimInputPin { rising_pending: false, ..*old(self) }),
            edge == Edge::Falling
                ==> *final(self) == (SimInputPin { falling_pending: false, ..*old(self) }),
    {
        match edge {
            Edge::Rising => self.rising_pending = false,
            Edge::Falling => self.falling_pending = false,
        }
    }

    /// The live level, read directly — not the edge history.
    pub fn read_level(&self) -> (level: bool)
        ensures
            level == self.level,
    {
        self.level
    }

    /// The hardware side of the physical line moving to `new_level`.
    pub fn apply_level(&mut self, new_level: bool)
        ensures
            *final(self) == pin_after_level(*old(self), new_level),
    {
        if new_level != self.level {
            if new_level {
                if self.rising_enabled {
                    self.rising_pending = true;
                }
            } else {
                if self.falling_enabled {
                    self.falling_pending = true;
                }
            }
            self.level = new_level;
        }
    }
}

/// Digital output capability: a level that can be set or toggled, and a
/// count of toggles so scenarios can observe how often the bound action
/// fired.
#[derive(Clone, Copy, PartialEq, Eq, Structural, Debug)]
pub struct SimOutputPin {
    /// The driven level.
    pub level: bool,
    /// How many times the output has been toggled.
    pub toggles: u64,
}

impl SimOutputPin {
    /// An output driven low, never toggled.
    pub fn new() -> (pin: Self)
        ensures
            pin == (SimOutputPin { level: false, toggles: 0 }),
    {
        SimOutputPin { level: false, toggles: 0 }
    }

    /// Drive the output high.
    pub fn set_high(&mut self)
        ensures
            *final(self) == (SimOutputPin { level: true, ..*old(self) }),
    {
        self.level = true;
    }

    /// Drive the output low.
    pub fn set_low(&mut self)
        ensures
            *final(self) == (SimOutputPin { level: false, ..*old(self) }),
    {
        self.level = false;
    }

    /// Invert the output.
    pub fn toggle(&mut self)
        requires
            old(self).toggles < u64::MAX,
        ensures
            *final(self) == (SimOutputPin {
                level: !old(self).level,
                toggles: (old(self).toggles + 1) as u64,
            }),
    {
        self.level = !self.level;
        self.toggles = self.toggles + 1;
    }

    /// Whether the output is currently driven high.
    pub fn is_high(&self) -> (high: bool)
        ensures
            high == self.level,
    {
        self.level
    }

    /// How many times the output has been toggled.
    pub fn toggle_count(&self) -> (count: u64)
        ensures
            count == self.toggles,
    {
        self.toggles
    }
}

} // verus!
