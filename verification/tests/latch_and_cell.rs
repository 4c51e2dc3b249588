use irq_engine::guard::GuardedCell;
use irq_engine::latch::EventLatch;

// Two signals with no intervening take collapse into one observed event.
#[test]
fn latch_coalesces_two_signals() {
    let mut latch = EventLatch::new();
    latch.signal();
    latch.signal();
    assert_eq!(latch.take(), true);
    assert_eq!(latch.take(), false);
}

#[test]
fn latch_starts_clear_and_take_never_blocks() {
    let mut latch = EventLatch::new();
    assert_eq!(latch.take(), false);
    latch.signal();
    assert!(latch.is_raised());
    assert_eq!(latch.take(), true);
    assert!(!latch.is_raised());
}

#[test]
fn latch_events_do_not_queue() {
    let mut latch = EventLatch::new();
    latch.signal();
    latch.signal();
    latch.signal();
    let mut observed = 0;
    for _ in 0..3 {
        if latch.take() {
            observed += 1;
        }
    }
    assert_eq!(observed, 1);
}

// An access before init reports the absence structurally: never a trap.
#[test]
fn empty_cell_skips_the_access() {
    let mut cell: GuardedCell<u32> = GuardedCell::new();
    assert!(!cell.is_initialized());
    let result = cell.with_mut(|value: u32| (value + 1, value));
    assert_eq!(result, None);
    assert!(!cell.is_initialized());
}

#[test]
fn populated_cell_applies_the_scope() {
    let mut cell: GuardedCell<u32> = GuardedCell::new();
    cell.init(41);
    assert!(cell.is_initialized());
    let seen = cell.with_mut(|value: u32| (value + 1, value));
    assert_eq!(seen, Some(41));
    let seen_again = cell.with_mut(|value: u32| (value, value));
    assert_eq!(seen_again, Some(42));
}

#[test]
fn scope_results_come_back_whole() {
    let mut cell: GuardedCell<(u8, u8)> = GuardedCell::new();
    cell.init((1, 2));
    let sum = cell.with_mut(|pair: (u8, u8)| ((pair.1, pair.0), pair.0 + pair.1));
    assert_eq!(sum, Some(3));
    let swapped = cell.with_mut(|pair: (u8, u8)| (pair, pair));
    assert_eq!(swapped, Some((2, 1)));
}
