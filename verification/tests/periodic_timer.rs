use irq_engine::hw::SimAlarm;
use irq_engine::hw::SimOutputPin;
use irq_engine::periodic::PeriodicController;
use irq_engine::world::run_periodic;

const HALF_SECOND: u64 = 500_000;

fn running_controller() -> PeriodicController {
    let mut controller = PeriodicController::new(HALF_SECOND);
    controller.init(SimAlarm::new(), SimOutputPin::new(), 0);
    controller.unmask();
    controller
}

// A 500 ms alarm toggles the output exactly 4 times in 2000 ms.
#[test]
fn two_seconds_give_four_toggles() {
    let mut controller = running_controller();
    let _ = run_periodic(&mut controller, 2_000_000);
    let parts = controller.peek().unwrap();
    assert_eq!(parts.led.toggles, 4);
    assert_eq!(parts.led.level, false);
    // the re-arm is already placed one period past the last firing
    assert_eq!(parts.alarm.deadline, Some(2_500_000));
    assert_eq!(parts.alarm.pending, false);
}

// Firings land at P, 2P, 3P, ...: no drift accumulates.
#[test]
fn firings_track_every_multiple_of_the_period() {
    let mut controller = running_controller();
    let _ = run_periodic(&mut controller, 1_750_000);
    let parts = controller.peek().unwrap();
    assert_eq!(parts.led.toggles, 3);
    assert_eq!(parts.led.level, true);
    assert_eq!(parts.alarm.deadline, Some(2_000_000));
}

#[test]
fn a_horizon_before_the_first_deadline_fires_nothing() {
    let mut controller = running_controller();
    let _ = run_periodic(&mut controller, 499_999);
    let parts = controller.peek().unwrap();
    assert_eq!(parts.led.toggles, 0);
    assert_eq!(parts.alarm.deadline, Some(HALF_SECOND));
}

// A refused reschedule is a missed tick: the tick that suffered it still
// runs, and the timer then stops, disarmed.
#[test]
fn busy_hardware_stops_the_timer_after_one_tick() {
    let mut controller = running_controller();
    controller.make_busy();
    let _ = run_periodic(&mut controller, 2_000_000);
    let parts = controller.peek().unwrap();
    assert_eq!(parts.led.toggles, 1);
    assert_eq!(parts.alarm.deadline, None);
    assert_eq!(parts.alarm.pending, false);
}

// An interrupt that fires before init finds the cell empty and skips.
#[test]
fn interrupt_before_init_is_harmless() {
    let mut controller = PeriodicController::new(HALF_SECOND);
    controller.on_timer_irq(0);
    assert!(controller.peek().is_none());
    let mut late = PeriodicController::new(HALF_SECOND);
    late.unmask();
    let times = run_periodic(&mut late, 2_000_000);
    let _ = times;
    assert!(late.peek().is_none());
}

// The interrupt handler performs clear, toggle and reschedule as one
// atomic step under the exclusion scope.
#[test]
fn one_firing_clears_toggles_and_rearms() {
    let mut controller = running_controller();
    let _ = run_periodic(&mut controller, HALF_SECOND);
    let parts = controller.peek().unwrap();
    assert_eq!(parts.led.toggles, 1);
    assert_eq!(parts.led.level, true);
    assert_eq!(parts.alarm.deadline, Some(1_000_000));
    assert_eq!(parts.alarm.pending, false);
}
