use ownmon::activity_store::{ActivityStore, StoreConfig};
use ownmon::bootstrap::{
    default_app_categories, default_blacklist, default_categories, default_config, read_setting,
    seed_plan, store_config_from,
};
use ownmon::media::{MediaInfo, PlaybackStatus};
use ownmon::pattern::{category_id_for_app, AppCategoryRule, Category};
use ownmon::query::{date_filter, has_char, page_of, MediaQuery, Page, SessionsQuery};
use ownmon::responses::{
    compute_stats, current_media_of, date_or_today, media_response, sessions_response, top_apps,
    ConfigResponse, DailyQuery, HourlyQuery, MediaRecord, SessionWithDuration, TimelineQuery,
};
use ownmon::text::copy_of;
use ownmon::time::Timestamp;

const T0: i64 = 1_700_000_000;

fn at(secs: i64) -> Timestamp {
    Timestamp::new(secs, 0).unwrap()
}

fn text(s: &str) -> Option<String> {
    Some(s.to_string())
}

fn sessions_query() -> SessionsQuery {
    SessionsQuery {
        date: None,
        from: None,
        to: None,
        app: None,
        category: None,
        limit: None,
        offset: None,
        order: None,
    }
}

fn media_query() -> MediaQuery {
    MediaQuery {
        date: None,
        from: None,
        to: None,
        artist: None,
        source_app: None,
        limit: None,
        offset: None,
        order: None,
    }
}

fn row(id: i64, process: &str, keys: i64, clicks: i64, secs: i64) -> SessionWithDuration {
    SessionWithDuration {
        id,
        process_name: process.to_string(),
        window_title: Some("Title".to_string()),
        start_time: "2023-11-14T22:13:20+00:00".to_string(),
        end_time: Some("2023-11-14T22:14:20+00:00".to_string()),
        keystrokes: keys,
        clicks,
        scrolls: 0,
        is_idle: false,
        duration_secs: secs,
    }
}

#[test]
fn page_has_defaults_and_a_cap() {
    assert_eq!(page_of(None, None, &None), Page { limit: 500, offset: 0, order_desc: true });
    assert_eq!(
        page_of(Some(10), Some(20), &text("asc")),
        Page { limit: 10, offset: 20, order_desc: false }
    );
    assert_eq!(page_of(Some(2000), None, &text("desc")).limit, 2000);
    assert_eq!(page_of(Some(2001), None, &text("desc")).limit, 2000);
    assert_eq!(page_of(Some(usize::MAX), None, &None).limit, 2000);
    assert_eq!(page_of(Some(0), None, &None).limit, 0);
    // Anything but `asc` is the latest first.
    assert!(page_of(None, None, &text("ASC")).order_desc);
    assert!(page_of(None, None, &text("up")).order_desc);
}

#[test]
fn query_without_time_filter_is_held_to_today() {
    assert_eq!(date_filter(&None, &None, &None, "2023-11-14"), text("2023-11-14"));
    assert_eq!(date_filter(&text("2020-01-01"), &None, &None, "2023-11-14"), text("2020-01-01"));
    assert_eq!(date_filter(&None, &text("2020-01-01"), &None, "2023-11-14"), None);
    assert_eq!(date_filter(&None, &None, &text("2020-01-01"), "2023-11-14"), None);
    assert_eq!(copy_of(&text("x")), text("x"));
    assert_eq!(copy_of(&None), None);
}

#[test]
fn sessions_query_becomes_parameterized_sql() {
    let filter = sessions_query().plan("2023-11-14");
    assert_eq!(filter.date, text("2023-11-14"));
    let sql = filter.to_sql();
    assert_eq!(
        sql.count_sql,
        "SELECT COUNT(*) FROM sessions WHERE end_time IS NOT NULL AND start_time LIKE ? || '%'"
    );
    assert_eq!(
        sql.select_sql,
        "SELECT id, process_name, window_title, start_time, end_time, keystrokes, clicks, scrolls, is_idle, CAST((julianday(end_time) - julianday(start_time)) * 86400 AS INTEGER) as duration FROM sessions WHERE end_time IS NOT NULL AND start_time LIKE ? || '%' ORDER BY start_time DESC LIMIT ? OFFSET ?"
    );
    assert_eq!(sql.params, vec!["2023-11-14".to_string()]);
    assert_eq!((sql.limit, sql.offset), (500, 0));
}

#[test]
fn sessions_query_with_all_filters() {
    let query = SessionsQuery {
        date: text("2023-11-14"),
        from: text("2023-11-14T08:00:00"),
        to: text("2023-11-14T18:00:00"),
        app: text("chro*.exe"),
        category: Some(5),
        limit: Some(5000),
        offset: Some(40),
        order: text("asc"),
    };
    let sql = query.plan("2099-01-01").to_sql();
    assert_eq!(
        sql.count_sql,
        "SELECT COUNT(*) FROM sessions WHERE end_time IS NOT NULL AND start_time LIKE ? || '%' AND start_time >= ? AND start_time <= ? AND process_name LIKE ?"
    );
    assert!(sql.select_sql.ends_with(" AND process_name LIKE ? ORDER BY start_time ASC LIMIT ? OFFSET ?"));
    assert_eq!(
        sql.params,
        vec![
            "2023-11-14".to_string(),
            "2023-11-14T08:00:00".to_string(),
            "2023-11-14T18:00:00".to_string(),
            "chro%.exe".to_string(),
        ]
    );
    assert_eq!((sql.limit, sql.offset), (2000, 40));
}

#[test]
fn what_the_client_sends_stays_out_of_the_sql_text() {
    let mut query = sessions_query();
    query.app = text("x'; DROP TABLE sessions; --");
    query.from = text("' OR 1=1 --");
    let sql = query.plan("2023-11-14").to_sql();
    assert_eq!(
        sql.count_sql,
        "SELECT COUNT(*) FROM sessions WHERE end_time IS NOT NULL AND start_time >= ? AND process_name = ?"
    );
    assert!(!sql.select_sql.contains("DROP"));
    assert_eq!(
        sql.params,
        vec!["' OR 1=1 --".to_string(), "x'; DROP TABLE sessions; --".to_string()]
    );
}

#[test]
fn media_query_becomes_parameterized_sql() {
    let mut query = media_query();
    query.artist = text("*Beatles*");
    query.source_app = text("Spotify.exe");
    query.to = text("2023-11-15");
    let filter = query.plan("2023-11-14");
    assert_eq!(filter.date, None);
    let sql = filter.to_sql();
    assert_eq!(
        sql.count_sql,
        "SELECT COUNT(*) FROM media WHERE end_time IS NOT NULL AND start_time <= ? AND artist LIKE ? AND source_app = ?"
    );
    assert_eq!(
        sql.select_sql,
        "SELECT id, title, artist, album, source_app, start_time, end_time, duration_secs FROM media WHERE end_time IS NOT NULL AND start_time <= ? AND artist LIKE ? AND source_app = ? ORDER BY start_time DESC LIMIT ? OFFSET ?"
    );
    assert_eq!(
        sql.params,
        vec!["2023-11-15".to_string(), "%Beatles%".to_string(), "Spotify.exe".to_string()]
    );
    let plain = media_query().plan("2023-11-14").to_sql();
    assert_eq!(plain.params, vec!["2023-11-14".to_string()]);
    assert!(has_char("a*b", '*'));
    assert!(!has_char("ab", '*'));
}

#[test]
fn sessions_get_their_categories() {
    let rules = vec![
        AppCategoryRule { process_pattern: "code.exe".to_string(), category_id: 2 },
        AppCategoryRule { process_pattern: "*chrome*".to_string(), category_id: 5 },
    ];
    let categories = vec![
        Category { id: 1, name: "Other".to_string(), color: "#9CA3AF".to_string(), icon: None },
        Category { id: 2, name: "Work".to_string(), color: "#3B82F6".to_string(), icon: None },
        Category { id: 5, name: "Browser".to_string(), color: "#F59E0B".to_string(), icon: None },
    ];
    let rows = vec![
        row(1, "code.exe", 1, 1, 10),
        row(2, "Chrome.exe", 1, 1, 10),
        row(3, "game.exe", 1, 1, 10),
        row(4, "code.exe", 1, 1, 10),
    ];
    let page = Page { limit: 500, offset: 0, order_desc: true };
    let all = sessions_response(&rows, 4, page, &rules, &categories, None);
    assert_eq!(all.total, 4);
    assert_eq!((all.limit, all.offset), (500, 0));
    let names: Vec<&str> = all
        .sessions
        .iter()
        .map(|s| s.category.as_ref().unwrap().name.as_str())
        .collect();
    assert_eq!(names, vec!["Work", "Browser", "Other", "Work"]);
    assert_eq!(all.sessions[1].session.id, 2);

    let work = sessions_response(&rows, 4, page, &rules, &categories, Some(2));
    let ids: Vec<i64> = work.sessions.iter().map(|s| s.session.id).collect();
    assert_eq!(ids, vec![1, 4]);
    assert_eq!(work.total, 4);
    let none = sessions_response(&rows, 4, page, &rules, &categories, Some(7));
    assert!(none.sessions.is_empty());
    assert_eq!(rows[0].clone().window_title, text("Title"));
}

#[test]
fn stats_add_the_current_session_to_the_rows() {
    let mut store = ActivityStore::with_config(
        StoreConfig { min_session_duration_secs: 10, afk_threshold_secs: 300 },
        at(T0),
    );
    let rows = vec![
        row(1, "code.exe", 100, 10, 60),
        row(2, "chrome.exe", 50, 5, 30),
        row(3, "code.exe", 7, 0, 10),
    ];
    let stats = compute_stats(&rows, &store, at(T0));
    assert_eq!(stats.sessions, 3);
    assert_eq!(stats.unique_apps, 2);
    assert_eq!(stats.keystrokes, 157);
    assert_eq!(stats.clicks, 15);
    assert_eq!(stats.focus_time_secs, 100);
    assert_eq!(stats.media_time_secs, 0);

    store.switch_session(at(T0), 1, 1, "mail.exe", "Inbox");
    store.add_input_counts(at(T0 + 1), 3, 2, 0);
    store.update_media(
        MediaInfo::new(
            "Song".to_string(),
            "Artist".to_string(),
            "Album".to_string(),
            "Spotify.exe".to_string(),
            PlaybackStatus::Playing,
            at(T0),
        ),
        at(T0),
    );
    let stats = compute_stats(&rows, &store, at(T0 + 20));
    assert_eq!(stats.sessions, 4);
    assert_eq!(stats.unique_apps, 3);
    assert_eq!(stats.keystrokes, 160);
    assert_eq!(stats.clicks, 17);
    assert_eq!(stats.focus_time_secs, 120);
    assert_eq!(stats.media_time_secs, 20);

    // Negative figures in the log count as nothing; a negative sum of
    // seconds shows as zero.
    let odd = vec![row(1, "a.exe", -5, -1, -500)];
    let empty = ActivityStore::new(at(T0));
    let stats = compute_stats(&odd, &empty, at(T0));
    assert_eq!((stats.keystrokes, stats.clicks, stats.focus_time_secs), (0, 0, 0));
    assert_eq!(stats.unique_apps, 1);
    let none = compute_stats(&Vec::new(), &empty, at(T0));
    assert_eq!((none.sessions, none.unique_apps), (0, 0));
}

#[test]
fn top_apps_are_ranked_by_focus_time() {
    let mut store = ActivityStore::with_config(
        StoreConfig { min_session_duration_secs: 1, afk_threshold_secs: 300 },
        at(T0),
    );
    store.switch_session(at(T0), 1, 1, "a.exe", "A");
    store.switch_session(at(T0 + 10), 2, 2, "b.exe", "B");
    store.add_input_counts(at(T0 + 11), 4, 1, 0);
    store.switch_session(at(T0 + 40), 3, 3, "c.exe", "C");
    let apps = top_apps(&store, at(T0 + 60));
    let names: Vec<&str> = apps.iter().map(|a| a.process_name.as_str()).collect();
    assert_eq!(names, vec!["b.exe", "c.exe", "a.exe"]);
    assert_eq!(apps[0].focus_time_secs, 30);
    assert_eq!(apps[0].keystrokes, 4);
    assert_eq!(apps[0].clicks, 1);
    assert_eq!(apps[0].session_count, 1);
    // The current session is not counted as a session.
    assert_eq!(apps[1].focus_time_secs, 20);
    assert_eq!(apps[1].session_count, 0);
}

#[test]
fn media_response_tells_what_plays() {
    let mut store = ActivityStore::new(at(T0));
    assert!(current_media_of(&store, at(T0)).is_none());
    store.update_media(
        MediaInfo::new(
            "Song".to_string(),
            "Artist".to_string(),
            "Album".to_string(),
            "Spotify.exe".to_string(),
            PlaybackStatus::Playing,
            at(T0),
        ),
        at(T0),
    );
    let history = vec![MediaRecord {
        id: 1,
        title: "Old".to_string(),
        artist: "Artist".to_string(),
        album: "Album".to_string(),
        source_app: "Spotify.exe".to_string(),
        start_time: "2023-11-14T20:00:00+00:00".to_string(),
        end_time: Some("2023-11-14T20:03:00+00:00".to_string()),
        duration_secs: 180,
    }];
    let page = Page { limit: 20, offset: 5, order_desc: true };
    let response = media_response(&store, history, 9, page, at(T0 + 42));
    let current = response.current.unwrap();
    assert_eq!(current.title, "Song");
    assert_eq!(current.artist, "Artist");
    assert_eq!(current.album, "Album");
    assert_eq!(current.source_app, "Spotify.exe");
    assert_eq!(current.start_time, "2023-11-14T22:13:20+00:00");
    assert_eq!(current.duration_secs, 42);
    assert!(current.is_playing);
    assert_eq!(response.history.len(), 1);
    assert_eq!(response.history[0].title, "Old");
    assert_eq!((response.total, response.limit, response.offset), (9, 20, 5));
}

#[test]
fn queries_have_their_defaults() {
    assert_eq!(DailyQuery { date: None }.day("2023-11-14"), "2023-11-14");
    assert_eq!(DailyQuery { date: text("2020-02-02") }.day("2023-11-14"), "2020-02-02");
    assert_eq!(HourlyQuery { date: None }.day("2023-11-14"), "2023-11-14");
    assert_eq!(HourlyQuery { date: text("2020-02-02") }.day("2023-11-14"), "2020-02-02");
    assert_eq!(date_or_today(&None, "today"), "today");
    assert_eq!(TimelineQuery { days: None }.days(), 7);
    assert_eq!(TimelineQuery { days: Some(30) }.days(), 30);
}

#[test]
fn config_rows_become_settings() {
    let rows = vec![
        ("afk_threshold_secs".to_string(), "300".to_string(), text("Idle threshold")),
        ("max_sessions".to_string(), "1000".to_string(), None),
    ];
    let response = ConfigResponse::from_rows(&rows);
    assert_eq!(response.settings.len(), 2);
    assert_eq!(response.settings[0].key, "afk_threshold_secs");
    assert_eq!(response.settings[0].value, "300");
    assert_eq!(response.settings[0].description, text("Idle threshold"));
    assert_eq!(response.settings[1].key, "max_sessions");
    assert_eq!(response.settings[1].description, None);
}

#[test]
fn settings_are_read_with_their_defaults() {
    assert_eq!(read_setting(Some("42"), 10), 42);
    assert_eq!(read_setting(Some("-7"), 10), -7);
    assert_eq!(read_setting(Some("ten"), 10), 10);
    assert_eq!(read_setting(Some(""), 10), 10);
    assert_eq!(read_setting(Some(" 5"), 10), 10);
    assert_eq!(read_setting(None, 10), 10);
    assert_eq!(
        store_config_from(Some("3"), Some("60")),
        StoreConfig { min_session_duration_secs: 3, afk_threshold_secs: 60 }
    );
    assert_eq!(
        store_config_from(None, Some("x")),
        StoreConfig { min_session_duration_secs: 10, afk_threshold_secs: 300 }
    );
}

#[test]
fn new_database_is_seeded_with_the_defaults() {
    let plan = seed_plan(0, 0, 0);
    assert_eq!(plan.blacklist.len(), 1);
    assert_eq!(plan.blacklist[0].pattern, "ownmon.exe");
    assert_eq!(plan.blacklist[0].description, "Self (monitoring app)");
    let names: Vec<&str> = plan.categories.iter().map(|c| c.name.as_str()).collect();
    assert_eq!(
        names,
        vec!["Other", "Work", "Entertainment", "Communication", "Browser", "System"]
    );
    assert_eq!(plan.categories[0].color, "#9CA3AF");
    assert_eq!(plan.categories[0].icon, "\u{1F4C1}");
    assert_eq!(plan.app_categories.len(), 24);
    assert_eq!(category_id_for_app(&plan.app_categories, "code.exe"), 2);
    assert_eq!(category_id_for_app(&plan.app_categories, "Spotify.exe"), 3);
    assert_eq!(category_id_for_app(&plan.app_categories, "netflix app"), 3);
    assert_eq!(category_id_for_app(&plan.app_categories, "Discord.exe"), 4);
    assert_eq!(category_id_for_app(&plan.app_categories, "chrome.exe"), 5);
    assert_eq!(category_id_for_app(&plan.app_categories, "Taskmgr.exe"), 6);
    assert_eq!(category_id_for_app(&plan.app_categories, "unheard.exe"), 1);
    let config: Vec<(&str, &str)> =
        plan.config.iter().map(|s| (s.key.as_str(), s.value.as_str())).collect();
    assert_eq!(
        config,
        vec![
            ("min_session_duration_secs", "10"),
            ("afk_threshold_secs", "300"),
            ("poll_interval_ms", "100"),
            ("track_title_changes", "false"),
            ("max_sessions", "1000"),
            ("prune_interval_secs", "3600"),
        ]
    );
}

#[test]
fn tables_with_rows_are_left_alone() {
    let plan = seed_plan(3, 6, 1);
    assert!(plan.blacklist.is_empty());
    assert!(plan.categories.is_empty());
    assert!(plan.app_categories.is_empty());
    assert!(plan.config.is_empty());
    let plan = seed_plan(0, 2, 0);
    assert_eq!(plan.blacklist.len(), 1);
    assert!(plan.categories.is_empty());
    assert!(plan.app_categories.is_empty());
    assert_eq!(plan.config.len(), 6);
    assert_eq!(default_blacklist().len(), 1);
    assert_eq!(default_categories().len(), 6);
    assert_eq!(default_app_categories().len(), 24);
    assert_eq!(default_config().len(), 6);
}
