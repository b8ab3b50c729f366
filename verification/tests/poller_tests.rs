use ownmon::activity_store::ActivityStore;
use ownmon::counters::{CounterRing, InputKind};
use ownmon::media::{MediaInfo, PlaybackStatus};
use ownmon::pattern::BlacklistEntry;
use ownmon::poller::{
    add_flushed_counts, apply_focus, extract_app_name, flush_counters_to_store, normalize_process_name, poll_cycle,
    total_clicks, DayWatch, FlushedInput, FocusChange, FocusOutcome, PollerConfig, PollerState,
    WindowSample,
};
use ownmon::time::Timestamp;
use std::time::Duration;

const T0: i64 = 1_700_000_000;

fn at(secs: i64) -> Timestamp {
    Timestamp::new(secs, 0).unwrap()
}

fn sample(hwnd: isize, title: &str, pid: u32, name: Option<&str>) -> WindowSample {
    WindowSample {
        hwnd,
        title: title.to_string(),
        process_id: pid,
        process_name: name.map(|n| n.to_string()),
    }
}

fn blacklist() -> Vec<BlacklistEntry> {
    vec![BlacklistEntry {
        id: 1,
        pattern: "ownmon.exe".to_string(),
        description: Some("Self (monitoring app)".to_string()),
        created_at: "2024-01-01T00:00:00+00:00".to_string(),
    }]
}

#[test]
fn test_poller_config_default() {
    let config = PollerConfig::default();
    assert_eq!(Duration::from_millis(config.poll_interval_ms), Duration::from_millis(100));
    assert!(!config.track_title_changes);
}

#[test]
fn test_flush_counters_no_panic_on_empty() {
    let ring = CounterRing::new();
    let mut store = ActivityStore::new(at(T0));
    let taken = flush_counters_to_store(&ring, &mut store, at(T0 + 1));
    assert_eq!(taken, FlushedInput { keystrokes: 0, clicks: 0, scrolls: 0 });
    assert_eq!(store.last_input_time().secs(), T0);
}

#[test]
fn flush_moves_the_counts_into_the_current_session() {
    let ring = CounterRing::new();
    let mut store = ActivityStore::new(at(T0));
    store.switch_session(at(T0), 1, 100, "a.exe", "A");
    for _ in 0..3 {
        ring.increment(InputKind::Keystroke);
    }
    ring.increment(InputKind::LeftClick);
    ring.increment(InputKind::RightClick);
    ring.increment(InputKind::RightClick);
    ring.increment(InputKind::MiddleClick);
    ring.increment(InputKind::Scroll);

    let taken = flush_counters_to_store(&ring, &mut store, at(T0 + 2));
    assert_eq!(taken, FlushedInput { keystrokes: 3, clicks: 4, scrolls: 1 });
    let current = store.current_session().unwrap();
    assert_eq!((current.keystrokes, current.mouse_clicks, current.mouse_scrolls), (3, 4, 1));
    assert_eq!(store.last_input_time().secs(), T0 + 2);

    // The ring is empty after: a second flush adds nothing.
    let again = flush_counters_to_store(&ring, &mut store, at(T0 + 3));
    assert_eq!(again, FlushedInput { keystrokes: 0, clicks: 0, scrolls: 0 });
    assert_eq!(store.current_session().unwrap().keystrokes, 3);
    assert_eq!(store.last_input_time().secs(), T0 + 2);
}

#[test]
fn clicks_of_all_buttons_are_summed() {
    assert_eq!(total_clicks(1, 2, 3), 6);
    assert_eq!(total_clicks(0, 0, 0), 0);
    assert_eq!(total_clicks(u64::MAX, 1, 1), u64::MAX);
    assert_eq!(total_clicks(u64::MAX - 2, 1, 1), u64::MAX);
    assert_eq!(total_clicks(u64::MAX - 3, 1, 1), u64::MAX - 1);
}

#[test]
fn app_name_is_what_stands_before_the_first_separator() {
    assert_eq!(extract_app_name("Calculator"), "Calculator");
    assert_eq!(extract_app_name("Document - Word"), "Document");
    assert_eq!(extract_app_name("Inbox | Mail"), "Inbox");
    assert_eq!(extract_app_name("Notes \u{2014} Editor"), "Notes");
    assert_eq!(extract_app_name("A | B - C"), "A");
    assert_eq!(extract_app_name("A - B | C"), "A");
    // The earliest separator counts, whichever it is.
    assert_eq!(extract_app_name("X | - Y"), "X");
    assert_eq!(extract_app_name("a-b|c"), "a-b|c");
    assert_eq!(extract_app_name(""), "");
    assert_eq!(extract_app_name(" - tail"), "");
}

#[test]
fn app_name_is_trimmed() {
    assert_eq!(extract_app_name("  Calculator \t"), "Calculator");
    assert_eq!(extract_app_name("   "), "");
    assert_eq!(extract_app_name("\u{00A0}Name\u{3000} - rest"), "Name");
    assert_eq!(extract_app_name(" two words  - rest"), "two words");
}

#[test]
fn long_app_name_is_cut_to_thirty_characters() {
    let thirty = "123456789012345678901234567890";
    assert_eq!(extract_app_name(thirty), thirty);
    let longer = "1234567890123456789012345678901";
    assert_eq!(extract_app_name(longer), "123456789012345678901234567...");
    assert_eq!(extract_app_name(longer).chars().count(), 30);
    // Characters are counted, not bytes.
    let umlauts = "\u{00E4}".repeat(30);
    assert_eq!(extract_app_name(&umlauts), umlauts);
    let more = "\u{00E4}".repeat(31);
    assert_eq!(extract_app_name(&more), "\u{00E4}".repeat(27) + "...");
}

#[test]
fn process_names_are_normalized() {
    assert_eq!(
        normalize_process_name("ApplicationFrameHost.exe", "Calculator"),
        "[UWP] Calculator"
    );
    assert_eq!(
        normalize_process_name("ApplicationFrameHost.exe", "Photos - picture.png"),
        "[UWP] Photos"
    );
    assert_eq!(normalize_process_name("ApplicationFrameHost.exe", ""), "UWP App");
    assert_eq!(
        normalize_process_name("Unknown", "Task Manager | Admin"),
        "[Elevated] Task Manager"
    );
    assert_eq!(normalize_process_name("Unknown", ""), "Unknown");
    assert_eq!(normalize_process_name("chrome.exe", "Google - Chrome"), "chrome.exe");
}

#[test]
fn focus_change_looks_at_window_and_title() {
    let mut poller = PollerState::new();
    let mut store = ActivityStore::new(at(T0));
    assert_eq!(poller.focus_change(1, "A", false), FocusChange::Window);
    let outcome = apply_focus(
        &mut poller,
        &mut store,
        &sample(1, "A", 10, Some("a.exe")),
        &blacklist(),
        at(T0),
    );
    match outcome {
        FocusOutcome::Switched { process_name } => assert_eq!(process_name, "a.exe"),
        _ => panic!("no session began"),
    }
    assert_eq!(poller.focus_change(1, "A", true), FocusChange::Unchanged);
    assert_eq!(poller.focus_change(1, "B", false), FocusChange::Unchanged);
    assert_eq!(poller.focus_change(1, "B", true), FocusChange::Title);
    assert_eq!(poller.focus_change(2, "A", false), FocusChange::Window);
}

#[test]
fn blacklisted_process_begins_no_session() {
    let mut poller = PollerState::new();
    let mut store = ActivityStore::new(at(T0));
    store.switch_session(at(T0), 1, 10, "a.exe", "A");
    let outcome = apply_focus(
        &mut poller,
        &mut store,
        &sample(2, "Monitor", 20, Some("OwnMon.exe")),
        &blacklist(),
        at(T0 + 50),
    );
    assert!(matches!(outcome, FocusOutcome::Blacklisted));
    assert_eq!(store.current_session().unwrap().process_name, "a.exe");
    assert!(store.completed_sessions().is_empty());
    // The window is remembered all the same.
    assert_eq!(poller.focus_change(2, "Monitor", false), FocusChange::Unchanged);
}

#[test]
fn poll_cycle_feeds_input_then_follows_the_focus() {
    let ring = CounterRing::new();
    let mut poller = PollerState::new();
    let mut store = ActivityStore::new(at(T0));

    let outcome = poll_cycle(
        &mut poller,
        &mut store,
        &ring,
        None,
        Some(sample(1, "Inbox - Mail", 10, Some("mail.exe"))),
        &blacklist(),
        false,
        at(T0),
    );
    assert!(matches!(outcome.focus, FocusOutcome::Switched { .. }));
    assert_eq!(store.current_session().unwrap().process_name, "mail.exe");
    assert_eq!(store.current_session().unwrap().window_title, "Inbox - Mail");

    ring.increment(InputKind::Keystroke);
    ring.increment(InputKind::Keystroke);
    let media = MediaInfo::new(
        "Song".to_string(),
        "Artist".to_string(),
        "Album".to_string(),
        "Spotify.exe".to_string(),
        PlaybackStatus::Playing,
        at(T0 + 12),
    );
    // The input of this tick goes to the session that was current, which
    // then ends as the focus moves on.
    let outcome = poll_cycle(
        &mut poller,
        &mut store,
        &ring,
        Some(media),
        Some(sample(2, "Sheet", 0, None)),
        &blacklist(),
        false,
        at(T0 + 12),
    );
    assert_eq!(outcome.taken, FlushedInput { keystrokes: 2, clicks: 0, scrolls: 0 });
    match outcome.focus {
        FocusOutcome::Switched { process_name } => assert_eq!(process_name, "[Elevated] Sheet"),
        _ => panic!("no session began"),
    }
    assert_eq!(store.completed_sessions().len(), 1);
    assert_eq!(store.completed_sessions()[0].keystrokes, 2);
    assert_eq!(store.current_session().unwrap().keystrokes, 0);
    assert_eq!(store.current_media().unwrap().media_info.title, "Song");

    // No foreground window: nothing moves.
    let outcome =
        poll_cycle(&mut poller, &mut store, &ring, None, None, &blacklist(), false, at(T0 + 13));
    assert!(matches!(outcome.focus, FocusOutcome::Unchanged));
    assert_eq!(store.current_session().unwrap().process_name, "[Elevated] Sheet");
    // The same window again: nothing moves.
    let outcome = poll_cycle(
        &mut poller,
        &mut store,
        &ring,
        None,
        Some(sample(2, "Sheet (changed)", 0, None)),
        &blacklist(),
        false,
        at(T0 + 14),
    );
    assert!(matches!(outcome.focus, FocusOutcome::Unchanged));
    assert_eq!(store.completed_sessions().len(), 1);
}

#[test]
fn pending_sessions_are_saved_every_fiftieth_tick() {
    let mut poller = PollerState::new();
    for _ in 0..49 {
        assert!(!poller.save_due());
    }
    assert!(poller.save_due());
    for _ in 0..49 {
        assert!(!poller.save_due());
    }
    assert!(poller.save_due());
}

#[test]
fn ended_day_is_committed_at_the_first_idle_moment() {
    let mut watch = DayWatch::new("2023-11-14");
    assert_eq!(watch.observe("2023-11-14", true), None);
    assert_eq!(watch.observe("2023-11-14", false), None);
    // Midnight passes while the user is busy: the day waits.
    assert_eq!(watch.observe("2023-11-15", false), None);
    assert_eq!(watch.observe("2023-11-15", false), None);
    assert_eq!(watch.observe("2023-11-15", true), Some("2023-11-14".to_string()));
    // It is handed out once.
    assert_eq!(watch.observe("2023-11-15", true), None);
    // Midnight passes while the user is idle: the day is due at once.
    assert_eq!(watch.observe("2023-11-16", true), Some("2023-11-15".to_string()));
    assert_eq!(watch.observe("2023-11-16", false), None);
}

#[test]
fn flushed_counts_go_to_the_current_session() {
    let mut store = ActivityStore::new(at(T0));
    store.switch_session(at(T0), 1, 100, "a.exe", "A");
    let taken = add_flushed_counts(&mut store, at(T0 + 4), 7, 1, 2, 3, 5);
    assert_eq!(taken, FlushedInput { keystrokes: 7, clicks: 6, scrolls: 5 });
    let current = store.current_session().unwrap();
    assert_eq!((current.keystrokes, current.mouse_clicks, current.mouse_scrolls), (7, 6, 5));
    assert_eq!(store.last_input_time().secs(), T0 + 4);

    // Clicks alone are input too, and their sum is held at the largest value.
    let taken = add_flushed_counts(&mut store, at(T0 + 5), 0, u64::MAX, 0, 1, 0);
    assert_eq!(taken, FlushedInput { keystrokes: 0, clicks: u64::MAX, scrolls: 0 });
    assert_eq!(store.current_session().unwrap().mouse_clicks, u64::MAX);
    assert_eq!(store.last_input_time().secs(), T0 + 5);

    // Nothing flushed: nothing changes.
    let taken = add_flushed_counts(&mut store, at(T0 + 900), 0, 0, 0, 0, 0);
    assert_eq!(taken, FlushedInput { keystrokes: 0, clicks: 0, scrolls: 0 });
    assert_eq!(store.last_input_time().secs(), T0 + 5);
    assert!(!store.current_session().unwrap().is_idle);
}
