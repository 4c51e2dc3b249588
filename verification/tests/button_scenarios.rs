use irq_engine::button::ButtonEngine;
use irq_engine::hw::SimInputPin;
use irq_engine::world::PinEvent;
use irq_engine::world::run_button;

const QUIET: u64 = 50_000;

// A pulled-up line: high at rest, low while the button is held.
fn running_engine() -> ButtonEngine {
    let mut engine = ButtonEngine::new(QUIET, true);
    engine.init(SimInputPin::new(true));
    engine.unmask();
    engine
}

fn press_and_release(hold: u64) -> Vec<PinEvent> {
    vec![
        PinEvent { at: 1_000, level: false },
        PinEvent { at: 1_000 + hold, level: true },
    ]
}

// Held low for 10 ms, shorter than the 50 ms window: zero transitions.
#[test]
fn a_short_press_is_noise() {
    let mut engine = running_engine();
    let script = press_and_release(10_000);
    run_button(&mut engine, &script);
    assert_eq!(engine.transition_count(), 0);
    assert_eq!(engine.settled_level(), true);
    assert_eq!(engine.led_toggle_count(), 0);
}

// Held low for 100 ms: one settled transition to pressed, then one more
// to released once the release edge settles.
#[test]
fn a_long_press_settles_twice() {
    let mut engine = running_engine();
    let script = press_and_release(100_000);
    run_button(&mut engine, &script);
    assert_eq!(engine.transition_count(), 2);
    assert_eq!(engine.settled_level(), true);
    assert_eq!(engine.led_toggle_count(), 2);
}

// A press that is still held when the run ends settles exactly once.
#[test]
fn a_held_press_settles_once() {
    let mut engine = running_engine();
    let script = vec![PinEvent { at: 1_000, level: false }];
    run_button(&mut engine, &script);
    assert_eq!(engine.transition_count(), 1);
    assert_eq!(engine.settled_level(), false);
    assert_eq!(engine.led_toggle_count(), 1);
}

// An edge followed by bounce edges inside the quiet window: exactly one
// consumer action fires.
#[test]
fn bounces_inside_the_window_coalesce() {
    let mut engine = running_engine();
    let script = vec![
        PinEvent { at: 0, level: false },
        PinEvent { at: 1_000, level: true },
        PinEvent { at: 2_000, level: false },
        PinEvent { at: 3_000, level: true },
        PinEvent { at: 4_000, level: false },
    ];
    run_button(&mut engine, &script);
    assert_eq!(engine.transition_count(), 1);
    assert_eq!(engine.settled_level(), false);
    assert_eq!(engine.led_toggle_count(), 1);
}

// Bounces around a release that has reverted by the window's end: the
// press already settled, the noise adds nothing.
#[test]
fn bouncy_release_of_an_unsettled_press_is_rejected() {
    let mut engine = running_engine();
    let script = vec![
        PinEvent { at: 0, level: false },
        PinEvent { at: 5_000, level: true },
        PinEvent { at: 6_000, level: false },
        PinEvent { at: 7_000, level: true },
    ];
    run_button(&mut engine, &script);
    // at 50 ms and again at 100 ms the line reads high, its rest level
    assert_eq!(engine.transition_count(), 0);
    assert_eq!(engine.settled_level(), true);
}

// An interrupt before init finds the cell empty: no latch, no trap.
#[test]
fn interrupt_before_init_signals_nothing() {
    let mut engine = ButtonEngine::new(QUIET, true);
    engine.unmask();
    engine.apply_level(false);
    engine.on_gpio_irq();
    assert!(!engine.latch_pending());
    assert_eq!(engine.transition_count(), 0);
}

// A spurious interrupt with no pending edge raises nothing.
#[test]
fn spurious_interrupt_is_a_no_op() {
    let mut engine = running_engine();
    engine.on_gpio_irq();
    assert!(!engine.latch_pending());
    let began = engine.consume_event();
    assert!(!began);
    assert_eq!(engine.transition_count(), 0);
}
