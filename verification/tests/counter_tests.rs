use ownmon::counters::{
    flush_click_counts, flush_keystroke_count, flush_scroll_count, keyboard_event_kind,
    mouse_event_kind, peek_all_counts, reset_all_counts, CounterRing, InputKind,
};
use std::sync::atomic::Ordering;

#[test]
fn test_atomic_counters_initial_zero() {
    let ring = CounterRing::new();
    reset_all_counts(&ring);

    let (keys, left, right, middle, scroll) = peek_all_counts(&ring);
    assert_eq!(keys, 0);
    assert_eq!(left, 0);
    assert_eq!(right, 0);
    assert_eq!(middle, 0);
    assert_eq!(scroll, 0);
}

#[test]
fn test_flush_keystroke_count() {
    let ring = CounterRing::new();
    reset_all_counts(&ring);

    ring.keystrokes.store(42, Ordering::Relaxed);
    let count = flush_keystroke_count(&ring);

    assert_eq!(count, 42);
    assert_eq!(ring.keystrokes.load(Ordering::Relaxed), 0);
}

#[test]
fn test_flush_click_counts() {
    let ring = CounterRing::new();
    reset_all_counts(&ring);

    ring.left_clicks.store(10, Ordering::Relaxed);
    ring.right_clicks.store(20, Ordering::Relaxed);
    ring.middle_clicks.store(5, Ordering::Relaxed);

    let (left, right, middle) = flush_click_counts(&ring);

    assert_eq!(left, 10);
    assert_eq!(right, 20);
    assert_eq!(middle, 5);

    assert_eq!(ring.left_clicks.load(Ordering::Relaxed), 0);
    assert_eq!(ring.right_clicks.load(Ordering::Relaxed), 0);
    assert_eq!(ring.middle_clicks.load(Ordering::Relaxed), 0);
}

#[test]
fn increments_equal_flushes_plus_current() {
    let ring = CounterRing::new();
    let mut flushed: u64 = 0;
    for round in 0..5u64 {
        for _ in 0..(round + 3) {
            ring.increment(InputKind::Keystroke);
        }
        if round % 2 == 0 {
            flushed += flush_keystroke_count(&ring);
        }
    }
    let (current, _, _, _, _) = peek_all_counts(&ring);
    // 3 + 4 + 5 + 6 + 7 increments in all.
    assert_eq!(flushed + current, 25);
}

#[test]
fn each_kind_has_its_own_counter() {
    let ring = CounterRing::new();
    ring.increment(InputKind::Keystroke);
    ring.increment(InputKind::LeftClick);
    ring.increment(InputKind::LeftClick);
    ring.increment(InputKind::RightClick);
    ring.increment(InputKind::MiddleClick);
    ring.increment(InputKind::Scroll);
    ring.increment(InputKind::Scroll);
    ring.increment(InputKind::Scroll);
    assert_eq!(peek_all_counts(&ring), (1, 2, 1, 1, 3));
    assert_eq!(flush_scroll_count(&ring), 3);
    assert_eq!(peek_all_counts(&ring), (1, 2, 1, 1, 0));
    reset_all_counts(&ring);
    assert_eq!(peek_all_counts(&ring), (0, 0, 0, 0, 0));
}

#[test]
fn hooks_count_key_down_and_button_down_only() {
    assert_eq!(keyboard_event_kind(0, 0x0100), Some(InputKind::Keystroke));
    assert_eq!(keyboard_event_kind(0, 0x0104), Some(InputKind::Keystroke));
    assert_eq!(keyboard_event_kind(0, 0x0101), None);
    assert_eq!(keyboard_event_kind(-1, 0x0100), None);
    assert_eq!(mouse_event_kind(0, 0x0201), Some(InputKind::LeftClick));
    assert_eq!(mouse_event_kind(0, 0x0204), Some(InputKind::RightClick));
    assert_eq!(mouse_event_kind(0, 0x0207), Some(InputKind::MiddleClick));
    assert_eq!(mouse_event_kind(0, 0x020A), Some(InputKind::Scroll));
    assert_eq!(mouse_event_kind(0, 0x0200), None);
    assert_eq!(mouse_event_kind(3, 0x0201), None);

    let ring = CounterRing::new();
    assert!(ring.record_keyboard_event(0, 0x0100));
    assert!(!ring.record_keyboard_event(0, 0x0101));
    assert!(ring.record_mouse_event(0, 0x020A));
    assert!(!ring.record_mouse_event(0, 0x0200));
    assert_eq!(peek_all_counts(&ring), (1, 0, 0, 0, 1));
}
