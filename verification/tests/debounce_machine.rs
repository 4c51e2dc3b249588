use irq_engine::debounce::Debounce;
use irq_engine::debounce::DebouncePhase;

// A full accepted cycle: edge, settle window, confirming sample, action.
#[test]
fn accepted_edge_walks_all_four_phases() {
    let mut machine = Debounce::new(true);
    assert_eq!(machine.current_phase(), DebouncePhase::Idle);

    machine.note_edge();
    assert_eq!(machine.current_phase(), DebouncePhase::EdgeDetected);

    machine.begin_settling();
    assert_eq!(machine.current_phase(), DebouncePhase::Settling);

    let fired = machine.sample(false);
    assert!(fired);
    assert_eq!(machine.current_phase(), DebouncePhase::Settled);
    assert_eq!(machine.current_settled(), false);

    machine.complete();
    assert_eq!(machine.current_phase(), DebouncePhase::Idle);
}

// A sample that reads the old level again is noise: nothing fires.
#[test]
fn reverted_sample_is_discarded() {
    let mut machine = Debounce::new(true);
    machine.note_edge();
    machine.begin_settling();
    let fired = machine.sample(true);
    assert!(!fired);
    assert_eq!(machine.current_phase(), DebouncePhase::Idle);
    assert_eq!(machine.current_settled(), true);
}

// Bounce cycles that keep sampling the same new level fire exactly once.
#[test]
fn repeated_settles_at_one_level_fire_once() {
    let mut machine = Debounce::new(true);
    let mut actions = 0;
    for _ in 0..5 {
        machine.note_edge();
        machine.begin_settling();
        if machine.sample(false) {
            actions += 1;
            machine.complete();
        }
    }
    assert_eq!(actions, 1);
    assert_eq!(machine.current_settled(), false);
}

// Edges during a window only coalesce; the machine stays settling.
#[test]
fn edges_do_not_disturb_a_running_window() {
    let mut machine = Debounce::new(false);
    machine.note_edge();
    machine.begin_settling();
    machine.note_edge();
    machine.note_edge();
    assert_eq!(machine.current_phase(), DebouncePhase::Settling);
    assert!(machine.sample(true));
}

// A window that cannot sample (cell still empty) skips the pass.
#[test]
fn cancelled_window_changes_nothing() {
    let mut machine = Debounce::new(true);
    machine.begin_settling();
    machine.cancel();
    assert_eq!(machine.current_phase(), DebouncePhase::Idle);
    assert_eq!(machine.current_settled(), true);
}
