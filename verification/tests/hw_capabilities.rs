use irq_engine::hw::Edge;
use irq_engine::hw::SimAlarm;
use irq_engine::hw::SimInputPin;
use irq_engine::hw::SimOutputPin;

// The one-shot alarm: armed relative to now, consumed at its deadline.
#[test]
fn alarm_is_one_shot() {
    let mut alarm = SimAlarm::new();
    assert!(alarm.schedule(0, 100));
    assert_eq!(alarm.deadline, Some(100));

    alarm.elapse_to(99);
    assert_eq!(alarm.deadline, Some(100));
    assert!(!alarm.pending);

    alarm.elapse_to(100);
    assert_eq!(alarm.deadline, None);
    assert!(alarm.pending);

    alarm.clear_interrupt();
    assert!(!alarm.pending);
}

// A busy queue refuses the request and leaves the alarm untouched.
#[test]
fn busy_alarm_refuses_schedules() {
    let mut alarm = SimAlarm::new();
    alarm.make_busy();
    assert!(!alarm.schedule(0, 100));
    assert_eq!(alarm.deadline, None);
}

// Edges raise only the pending bit of an enabled direction.
#[test]
fn input_pin_tracks_enabled_edges() {
    let mut pin = SimInputPin::new(true);
    pin.enable_interrupt(Edge::Falling);

    pin.apply_level(false);
    assert!(pin.interrupt_status(Edge::Falling));
    assert!(!pin.interrupt_status(Edge::Rising));
    assert_eq!(pin.read_level(), false);

    pin.clear_interrupt(Edge::Falling);
    assert!(!pin.interrupt_status(Edge::Falling));

    // rising edges are not enabled: the level moves, nothing pends
    pin.apply_level(true);
    assert!(!pin.interrupt_status(Edge::Rising));
    assert_eq!(pin.read_level(), true);
}

// Re-asserting the current level is no edge.
#[test]
fn input_pin_ignores_a_level_reassertion() {
    let mut pin = SimInputPin::new(false);
    pin.enable_interrupt(Edge::Falling);
    pin.enable_interrupt(Edge::Rising);
    pin.apply_level(false);
    assert!(!pin.interrupt_status(Edge::Falling));
    assert!(!pin.interrupt_status(Edge::Rising));
}

// The output counts its toggles and lands back where it started.
#[test]
fn output_pin_counts_toggles() {
    let mut led = SimOutputPin::new();
    assert!(!led.is_high());
    led.toggle();
    assert!(led.is_high());
    led.toggle();
    assert!(!led.is_high());
    assert_eq!(led.toggle_count(), 2);

    led.set_high();
    assert!(led.is_high());
    led.set_low();
    assert!(!led.is_high());
    assert_eq!(led.toggle_count(), 2);
}
