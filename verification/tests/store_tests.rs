use ownmon::activity_store::{ActivityStore, StoreConfig};
use ownmon::aggregator::stats_for;
use ownmon::media::{MediaInfo, PlaybackStatus};
use ownmon::time::Timestamp;

const T0: i64 = 1_700_000_000;

fn at(secs: i64) -> Timestamp {
    Timestamp::new(secs, 0).unwrap()
}

fn store_with_min(min: i64) -> ActivityStore {
    ActivityStore::with_config(
        StoreConfig { min_session_duration_secs: min, afk_threshold_secs: 300 },
        at(T0),
    )
}

fn playing(title: &str, artist: &str, album: &str, now: i64) -> MediaInfo {
    MediaInfo::new(
        title.to_string(),
        artist.to_string(),
        album.to_string(),
        "Spotify.exe".to_string(),
        PlaybackStatus::Playing,
        at(now),
    )
}

#[test]
fn test_new_store_is_empty() {
    let store = ActivityStore::new(at(T0));
    assert!(store.current_session().is_none());
    assert!(store.completed_sessions().is_empty());
}

#[test]
fn test_switch_session_creates_new() {
    let mut store = ActivityStore::new(at(T0));
    store.switch_session(at(T0), 1, 100, "chrome.exe", "Google");

    assert!(store.current_session().is_some());
    let session = store.current_session().unwrap();
    assert_eq!(session.process_name, "chrome.exe");
    assert_eq!(session.window_title, "Google");
}

#[test]
fn test_switch_session_finalizes_old() {
    let mut store = store_with_min(3);

    store.switch_session(at(T0), 2, 200, "notepad.exe", "Untitled");
    store.add_input_counts(at(T0), 2, 0, 0);

    store.switch_session(at(T0 + 3), 3, 300, "chrome.exe", "Google");

    assert_eq!(store.completed_sessions().len(), 1);
    assert_eq!(store.completed_sessions()[0].keystrokes, 2);
    assert!(store.completed_sessions()[0].end_time.is_some());

    assert_eq!(store.current_session().unwrap().process_name, "chrome.exe");
    assert_eq!(store.current_session().unwrap().window_title, "Google");
}

#[test]
fn test_add_input_counts() {
    let mut store = ActivityStore::new(at(T0));
    store.switch_session(at(T0), 1, 100, "test.exe", "Test");

    store.add_input_counts(at(T0 + 1), 100, 50, 25);

    let session = store.current_session().unwrap();
    assert_eq!(session.keystrokes, 100);
    assert_eq!(session.mouse_clicks, 50);
    assert_eq!(session.mouse_scrolls, 25);
}

#[test]
fn test_current_window_handle() {
    let mut store = ActivityStore::new(at(T0));
    assert!(store.current_window_handle().is_none());

    store.switch_session(at(T0), 12345, 100, "test.exe", "Test");
    assert_eq!(store.current_window_handle(), Some(12345));
}

#[test]
fn test_compute_application_stats() {
    let mut store = store_with_min(3);

    store.switch_session(at(T0), 1, 100, "chrome.exe", "Tab 1");
    store.add_input_counts(at(T0), 10, 5, 0);

    store.switch_session(at(T0 + 3), 2, 100, "chrome.exe", "Tab 2");
    store.add_input_counts(at(T0 + 3), 20, 10, 0);

    store.switch_session(at(T0 + 6), 3, 200, "code.exe", "Editor");

    let stats = store.compute_application_stats(at(T0 + 6));

    assert!(stats_for(&stats, "chrome.exe").is_some());
    assert!(stats_for(&stats, "code.exe").is_some());

    let chrome_stats = stats_for(&stats, "chrome.exe").unwrap();
    assert_eq!(chrome_stats.total_keystrokes, 30);
    assert_eq!(chrome_stats.total_clicks, 15);
    assert_eq!(chrome_stats.session_count, 2);
}

#[test]
fn test_prune_old_sessions() {
    let mut store = store_with_min(3);

    for i in 0..10 {
        store.switch_session(at(T0 + 3 * i), i as isize, i as u32, &format!("app{}.exe", i), "Window");
        store.add_input_counts(at(T0 + 3 * i), 1, 0, 0);
    }

    store.switch_session(at(T0 + 30), 11, 11, "final.exe", "Final");

    assert_eq!(store.completed_sessions().len(), 10);

    store.prune_old_sessions(5);
    assert_eq!(store.completed_sessions().len(), 5);

    assert_eq!(store.completed_sessions()[0].process_name, "app5.exe");
    store.prune_old_sessions(5);
    assert_eq!(store.session_count(), 5);
    store.prune_old_sessions(0);
    assert_eq!(store.session_count(), 0);
}

#[test]
fn new_store_has_the_default_settings() {
    let store = ActivityStore::new(at(T0));
    assert_eq!(
        store.config(),
        StoreConfig { min_session_duration_secs: 10, afk_threshold_secs: 300 }
    );
    assert_eq!(StoreConfig::default(), store.config());
    assert_eq!(store.last_input_time().secs(), T0);
    assert!(store.last_poll_time().is_none());
    assert!(!store.has_pending_saves());
    assert!(store.current_media().is_none());
    assert!(store.media_history().is_empty());
    assert!(store.app_aggregates().is_empty());
}

#[test]
fn basic_focus_switch_persists_the_session() {
    let mut store = ActivityStore::new(at(T0));
    store.switch_session(at(T0), 1, 100, "a.exe", "A");
    store.add_input_counts(at(T0 + 1), 5, 0, 0);
    store.switch_session(at(T0 + 11), 2, 200, "b.exe", "B");

    assert!(store.has_pending_saves());
    let pending = store.drain_pending_sessions();
    assert_eq!(pending.len(), 1);
    assert_eq!(pending[0].process_name, "a.exe");
    assert_eq!(pending[0].window_title, "A");
    assert_eq!(pending[0].keystrokes, 5);
    assert!(!pending[0].is_idle);
    assert!(pending[0].duration_secs(at(T0 + 11)) >= 10);
    assert_eq!(pending[0].end_time.unwrap().secs(), T0 + 11);
    assert!(!store.has_pending_saves());
    assert!(store.drain_pending_sessions().is_empty());
    assert_eq!(store.completed_sessions().len(), 1);
    assert_eq!(store.last_input_time().secs(), T0 + 11);
    assert_eq!(store.last_poll_time().unwrap().secs(), T0 + 11);
    assert_eq!(store.app_aggregates().len(), 1);
    assert_eq!(store.app_aggregates()[0].total_focus_duration_secs, 11);
}

#[test]
fn short_session_is_dropped() {
    let mut store = ActivityStore::new(at(T0));
    store.switch_session(at(T0), 1, 100, "x.exe", "X");
    store.add_input_counts(at(T0 + 1), 1, 0, 0);
    store.switch_session(at(T0 + 9), 2, 200, "y.exe", "Y");

    assert!(store.drain_pending_sessions().is_empty());
    assert!(store.completed_sessions().is_empty());
    assert!(store.app_aggregates().is_empty());
    assert_eq!(store.current_session().unwrap().process_name, "y.exe");
}

#[test]
fn idle_split_on_timeout() {
    let mut store = ActivityStore::new(at(T0));
    store.switch_session(at(T0), 1, 100, "a.exe", "A");
    store.add_input_counts(at(T0 + 20), 5, 0, 0);

    // Not yet away: exactly the threshold.
    store.check_and_split_on_idle(at(T0 + 320));
    assert!(!store.current_session().unwrap().is_idle);
    assert!(store.completed_sessions().is_empty());

    store.check_and_split_on_idle(at(T0 + 321));
    let pending = store.drain_pending_sessions();
    assert_eq!(pending.len(), 1);
    assert_eq!(pending[0].process_name, "a.exe");
    assert_eq!(pending[0].keystrokes, 5);
    assert!(!pending[0].is_idle);
    assert_eq!(pending[0].start_time.secs(), T0);
    assert_eq!(pending[0].end_time.unwrap().secs(), T0 + 20);

    let current = store.current_session().unwrap();
    assert!(current.is_idle);
    assert_eq!(current.keystrokes, 0);
    assert_eq!(current.mouse_clicks, 0);
    assert_eq!(current.mouse_scrolls, 0);
    assert_eq!(current.start_time.secs(), T0 + 20);
    assert_eq!(current.end_time.unwrap().secs(), T0 + 321);
    assert_eq!(current.process_name, "a.exe");

    // Each further tick moves the end of the idle session.
    store.check_and_split_on_idle(at(T0 + 400));
    let current = store.current_session().unwrap();
    assert!(current.is_idle);
    assert_eq!(current.start_time.secs(), T0 + 20);
    assert_eq!(current.end_time.unwrap().secs(), T0 + 400);
    assert!(store.drain_pending_sessions().is_empty());
}

#[test]
fn resume_from_idle_ends_the_idle_session() {
    let mut store = ActivityStore::new(at(T0));
    store.switch_session(at(T0), 1, 100, "a.exe", "A");
    store.add_input_counts(at(T0 + 20), 5, 0, 0);
    store.check_and_split_on_idle(at(T0 + 321));
    let _ = store.drain_pending_sessions();

    store.add_input_counts(at(T0 + 500), 1, 0, 0);

    let pending = store.drain_pending_sessions();
    assert_eq!(pending.len(), 1);
    assert!(pending[0].is_idle);
    assert_eq!(pending[0].keystrokes, 0);
    assert_eq!(pending[0].start_time.secs(), T0 + 20);
    assert_eq!(pending[0].end_time.unwrap().secs(), T0 + 500);

    let current = store.current_session().unwrap();
    assert_eq!(current.process_name, "a.exe");
    assert_eq!(current.window_title, "A");
    assert_eq!(current.window_handle, 1);
    assert!(!current.is_idle);
    assert_eq!(current.start_time.secs(), T0 + 500);
    assert!(current.end_time.is_none());
    assert_eq!(current.keystrokes, 1);
    assert_eq!(store.last_input_time().secs(), T0 + 500);
}

#[test]
fn input_after_a_gap_splits_into_three() {
    let mut store = ActivityStore::new(at(T0));
    store.switch_session(at(T0), 7, 70, "a.exe", "A");
    store.add_input_counts(at(T0 + 30), 4, 3, 2);

    // No tick came in between: the input itself finds the user away.
    store.add_input_counts(at(T0 + 400), 0, 1, 0);

    let pending = store.drain_pending_sessions();
    assert_eq!(pending.len(), 2);
    let active = &pending[0];
    let idle = &pending[1];
    assert!(!active.is_idle);
    assert_eq!((active.keystrokes, active.mouse_clicks, active.mouse_scrolls), (4, 3, 2));
    assert_eq!(active.start_time.secs(), T0);
    assert_eq!(active.end_time.unwrap().secs(), T0 + 30);
    assert!(idle.is_idle);
    assert_eq!((idle.keystrokes, idle.mouse_clicks, idle.mouse_scrolls), (0, 0, 0));
    assert_eq!(idle.start_time.secs(), T0 + 30);
    assert_eq!(idle.end_time.unwrap().secs(), T0 + 400);

    let current = store.current_session().unwrap();
    assert_eq!(current.start_time.secs(), T0 + 400);
    assert_eq!(current.window_handle, 7);
    assert_eq!(current.process_id, 70);
    assert_eq!((current.keystrokes, current.mouse_clicks, current.mouse_scrolls), (0, 1, 0));
    assert!(!current.is_idle);
    assert_eq!(store.completed_sessions().len(), 2);
}

#[test]
fn session_without_input_becomes_idle_as_a_whole() {
    let mut store = ActivityStore::new(at(T0));
    store.switch_session(at(T0), 1, 100, "a.exe", "A");
    store.check_and_split_on_idle(at(T0 + 301));
    assert!(store.drain_pending_sessions().is_empty());
    let current = store.current_session().unwrap();
    assert!(current.is_idle);
    assert_eq!(current.start_time.secs(), T0);
    assert_eq!(current.end_time.unwrap().secs(), T0 + 301);

    // The same without a tick: the input ends the idle time at once.
    let mut store = ActivityStore::new(at(T0));
    store.switch_session(at(T0), 1, 100, "a.exe", "A");
    store.add_input_counts(at(T0 + 301), 2, 0, 0);
    let pending = store.drain_pending_sessions();
    assert_eq!(pending.len(), 1);
    assert!(pending[0].is_idle);
    assert_eq!(pending[0].start_time.secs(), T0);
    assert_eq!(pending[0].end_time.unwrap().secs(), T0 + 301);
    assert_eq!(store.current_session().unwrap().keystrokes, 2);
    assert_eq!(store.current_session().unwrap().start_time.secs(), T0 + 301);
}

#[test]
fn short_active_part_is_dropped_on_split() {
    let mut store = ActivityStore::new(at(T0));
    store.switch_session(at(T0), 1, 100, "a.exe", "A");
    store.add_input_counts(at(T0 + 5), 9, 0, 0);
    store.check_and_split_on_idle(at(T0 + 306));
    assert!(store.drain_pending_sessions().is_empty());
    let current = store.current_session().unwrap();
    assert!(current.is_idle);
    assert_eq!(current.start_time.secs(), T0 + 5);
}

#[test]
fn zero_input_changes_nothing() {
    let mut store = ActivityStore::new(at(T0));
    store.add_input_counts(at(T0 + 1000), 0, 0, 0);
    assert_eq!(store.last_input_time().secs(), T0);
    store.switch_session(at(T0), 1, 100, "a.exe", "A");
    store.add_input_counts(at(T0 + 1000), 0, 0, 0);
    assert_eq!(store.last_input_time().secs(), T0);
    assert!(!store.current_session().unwrap().is_idle);
    assert_eq!(store.current_session().unwrap().keystrokes, 0);
    // Input without a current session is the last input all the same.
    let mut store = ActivityStore::new(at(T0));
    store.add_input_counts(at(T0 + 7), 1, 0, 0);
    assert_eq!(store.last_input_time().secs(), T0 + 7);
    assert!(store.current_session().is_none());
    store.check_and_split_on_idle(at(T0 + 9999));
    assert!(store.current_session().is_none());
}

#[test]
fn counts_are_held_at_the_largest_value() {
    let mut store = ActivityStore::new(at(T0));
    store.switch_session(at(T0), 1, 100, "a.exe", "A");
    store.add_input_counts(at(T0 + 1), u64::MAX - 1, 1, 0);
    store.add_input_counts(at(T0 + 2), 5, u64::MAX, 3);
    let current = store.current_session().unwrap();
    assert_eq!(current.keystrokes, u64::MAX);
    assert_eq!(current.mouse_clicks, u64::MAX);
    assert_eq!(current.mouse_scrolls, 3);
}

#[test]
fn finalize_ends_session_and_media() {
    let mut store = ActivityStore::new(at(T0));
    store.switch_session(at(T0), 1, 100, "a.exe", "A");
    store.add_input_counts(at(T0 + 1), 5, 0, 0);
    store.update_media(playing("Song", "Artist", "Album", T0 + 2), at(T0 + 2));
    store.finalize_current_session(at(T0 + 60));

    assert!(store.current_session().is_none());
    assert!(store.current_media().is_none());
    let sessions = store.drain_pending_sessions();
    assert_eq!(sessions.len(), 1);
    assert_eq!(sessions[0].end_time.unwrap().secs(), T0 + 60);
    let media = store.drain_pending_media();
    assert_eq!(media.len(), 1);
    assert_eq!(media[0].media_info.title, "Song");
    assert_eq!(media[0].start_time.secs(), T0 + 2);
    assert_eq!(media[0].end_time.unwrap().secs(), T0 + 60);
    assert_eq!(store.media_history().len(), 1);

    // A session shorter than the minimum is dropped on shutdown too.
    let mut store = ActivityStore::new(at(T0));
    store.switch_session(at(T0), 1, 100, "a.exe", "A");
    store.finalize_current_session(at(T0 + 9));
    assert!(store.current_session().is_none());
    assert!(!store.has_pending_saves());
    store.finalize_current_session(at(T0 + 99));
    assert!(!store.has_pending_saves());
}

#[test]
fn same_title_and_artist_never_split() {
    let mut store = ActivityStore::new(at(T0));
    store.update_media(playing("Song", "Artist", "Album 1", T0), at(T0));
    assert_eq!(store.current_media().unwrap().start_time.secs(), T0);

    store.update_media(playing("Song", "Artist", "Album 2", T0 + 5), at(T0 + 5));
    let current = store.current_media().unwrap();
    assert_eq!(current.start_time.secs(), T0);
    assert_eq!(current.media_info.album, "Album 1");
    assert!(store.media_history().is_empty());
    assert!(store.drain_pending_media().is_empty());
}

#[test]
fn new_media_ends_the_old_session() {
    let mut store = ActivityStore::new(at(T0));
    store.update_media(playing("Song A", "Artist", "Album", T0), at(T0));
    store.update_media(playing("Song B", "Artist", "Album", T0 + 100), at(T0 + 100));

    assert_eq!(store.current_media().unwrap().media_info.title, "Song B");
    assert_eq!(store.current_media().unwrap().start_time.secs(), T0 + 100);
    assert_eq!(store.media_history().len(), 1);
    assert_eq!(store.media_history()[0].media_info.title, "Song A");
    assert_eq!(store.media_history()[0].end_time.unwrap().secs(), T0 + 100);
    let pending = store.drain_pending_media();
    assert_eq!(pending.len(), 1);
    assert_eq!(pending[0].media_info.title, "Song A");
    assert_eq!(store.total_media_time_secs(at(T0 + 130)), 130);
}

#[test]
fn paused_player_ends_the_session() {
    let mut store = ActivityStore::new(at(T0));
    let paused = MediaInfo::new(
        "Song".to_string(),
        "Artist".to_string(),
        "Album".to_string(),
        "Spotify.exe".to_string(),
        PlaybackStatus::Paused,
        at(T0),
    );
    // Nothing plays and nothing played: no change.
    store.update_media(paused.clone(), at(T0));
    assert!(store.current_media().is_none());
    assert!(store.media_history().is_empty());

    store.update_media(playing("Song", "Artist", "Album", T0 + 1), at(T0 + 1));
    store.update_media(paused, at(T0 + 31));
    assert!(store.current_media().is_none());
    assert_eq!(store.media_history().len(), 1);
    assert_eq!(store.media_history()[0].duration_secs(at(T0 + 99)), 30);
    assert_eq!(store.drain_pending_media().len(), 1);
    assert_eq!(store.total_media_time_secs(at(T0 + 99)), 30);
}

#[test]
fn media_summary_gives_the_latest_ten() {
    let mut store = ActivityStore::new(at(T0));
    for i in 0..12 {
        store.update_media(playing(&format!("Song {}", i), "Artist", "Album", T0 + i), at(T0 + i));
    }
    // Twelve songs began, eleven have ended.
    assert_eq!(store.media_history().len(), 11);
    let summary = store.get_media_summary();
    assert_eq!(summary.len(), 10);
    assert_eq!(summary[0].media_info.title, "Song 10");
    assert_eq!(summary[9].media_info.title, "Song 1");
    store.prune_old_sessions(3);
    assert_eq!(store.media_history().len(), 3);
    assert_eq!(store.media_history()[0].media_info.title, "Song 8");
    assert_eq!(store.get_media_summary().len(), 3);
}

#[test]
fn daily_summary_counts_history_and_current() {
    let mut store = store_with_min(3);
    store.switch_session(at(T0), 1, 100, "chrome.exe", "Tab 1");
    store.add_input_counts(at(T0), 10, 5, 0);
    store.switch_session(at(T0 + 10), 2, 200, "code.exe", "Editor");
    store.add_input_counts(at(T0 + 10), 7, 1, 0);
    store.switch_session(at(T0 + 30), 3, 100, "chrome.exe", "Tab 2");
    store.add_input_counts(at(T0 + 30), 3, 0, 0);

    let summary = store.get_daily_summary(at(T0 + 35));
    assert_eq!(summary.total_keystrokes, 20);
    assert_eq!(summary.total_clicks, 6);
    assert_eq!(summary.total_focus_time_secs, 35);
    assert_eq!(summary.app_count, 2);
    assert_eq!(summary.session_count, 3);

    let stats = store.compute_application_stats(at(T0 + 35));
    assert_eq!(stats.len(), 2);
    assert_eq!(stats[0].process_name, "chrome.exe");
    assert_eq!(stats[0].total_focus_duration_secs, 15);
    assert_eq!(stats[0].session_count, 1);
    assert_eq!(stats[1].process_name, "code.exe");
    assert_eq!(stats[1].total_focus_duration_secs, 20);
}

#[test]
fn session_that_ends_before_it_began_is_dropped() {
    // No minimum, and a clock that steps back behind the start of the session.
    let mut store = store_with_min(0);
    store.switch_session(at(T0 + 1000), 1, 100, "a.exe", "A");
    store.add_input_counts(at(T0 + 1000), 3, 0, 0);
    store.switch_session(at(T0 + 500), 2, 200, "b.exe", "B");
    assert!(store.drain_pending_sessions().is_empty());
    assert!(store.completed_sessions().is_empty());
    assert!(store.app_aggregates().is_empty());

    // With no minimum a session of no length is kept: its end is its start.
    store.switch_session(at(T0 + 500), 3, 300, "c.exe", "C");
    let pending = store.drain_pending_sessions();
    assert_eq!(pending.len(), 1);
    assert_eq!(pending[0].process_name, "b.exe");
    assert_eq!(pending[0].start_time.secs(), T0 + 500);
    assert_eq!(pending[0].end_time.unwrap().secs(), T0 + 500);

    // Shutdown goes by the same rule.
    store.finalize_current_session(at(T0 + 499));
    assert!(store.drain_pending_sessions().is_empty());
    assert!(store.current_session().is_none());
}
