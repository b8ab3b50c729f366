//! What the query layer answers with: rows of the log with their categories,
//! what is playing, and the totals of the day.

use crate::activity_store::ActivityStore;
use crate::aggregator::{rank_stats, ranked, StatsOrder};
use crate::media::MediaSessionView;
use crate::pattern::{category_of, get_category_for_app, AppCategoryRule, Category};
use crate::persist::rfc3339;
use crate::query::{Page, DEFAULT_TIMELINE_DAYS};
use crate::text::{copy_of, str_eq, text_of};
use crate::time::Timestamp;
use crate::types::{saturate_u32, saturate_u64, stats_views, AppStatsView, SessionView};
use vstd::prelude::*;
use vstd::string::*;

verus! {

/// A row of the session log with its length in seconds.
#[derive(Debug)]
pub struct SessionWithDuration {
    pub id: i64,
    pub process_name: String,
    pub window_title: Option<String>,
    pub start_time: String,
    pub end_time: Option<String>,
    pub keystrokes: i64,
    pub clicks: i64,
    pub scrolls: i64,
    pub is_idle: bool,
    pub duration_secs: i64,
}

impl Clone for SessionWithDuration {
    fn clone(&self) -> (copy: Self)
        ensures
            copy == *self,
    {
        SessionWithDuration {
            id: self.id,
            process_name: self.process_name.clone(),
            window_title: match &self.window_title {
                Some(t) => Some(t.clone()),
                None => None,
            },
            start_time: self.start_time.clone(),
            end_time: match &self.end_time {
                Some(t) => Some(t.clone()),
                None => None,
            },
            keystrokes: self.keystrokes,
            clicks: self.clicks,
            scrolls: self.scrolls,
            is_idle: self.is_idle,
            duration_secs: self.duration_secs,
        }
    }
}

/// A row of the media log.
#[derive(Debug)]
pub struct MediaRecord {
    pub id: i64,
    pub title: String,
    pub artist: String,
    pub album: String,
    pub source_app: String,
    pub start_time: String,
    pub end_time: Option<String>,
    pub duration_secs: i64,
}

/// A row of the session log with the category of its application.
#[derive(Debug)]
pub struct SessionWithCategory {
    pub session: SessionWithDuration,
    pub category: Option<Category>,
}

/// The answer to a query of the session log.
#[derive(Debug)]
pub struct SessionsResponse {
    pub sessions: Vec<SessionWithCategory>,
    /// Number of rows that match, whatever the page.
    pub total: i64,
    pub limit: usize,
    pub offset: usize,
}

/// Whether a row with the category `category` passes the filter `only`:
/// without a filter every row passes, with one only the rows of that
/// category.
pub open spec fn passes(category: Option<Category>, only: Option<i64>) -> bool {
    match only {
        Some(id) => category matches Some(c) && c.id == id,
        None => true,
    }
}

/// The rows of `rows` with their categories, those left out that do not pass
/// the filter `only`.
pub open spec fn categorized(
    rows: Seq<SessionWithDuration>,
    rules: Seq<AppCategoryRule>,
    categories: Seq<Category>,
    only: Option<i64>,
) -> Seq<SessionWithCategory>
    decreases rows.len(),
{
    if rows.len() == 0 {
        Seq::empty()
    } else {
        let rest = categorized(rows.drop_last(), rules, categories, only);
        let category = category_of(rules, categories, rows.last().process_name@);
        if passes(category, only) {
            rest.push(SessionWithCategory { session: rows.last(), category })
        } else {
            rest
        }
    }
}

/// Puts together the answer to a query of the session log: each row with the
/// category of its application, and only the rows of the category `only`
/// where one is asked for.
pub fn sessions_response(
    rows: &Vec<SessionWithDuration>,
    total: i64,
    page: Page,
    rules: &Vec<AppCategoryRule>,
    categories: &Vec<Category>,
    only: Option<i64>,
) -> (response: SessionsResponse)
    ensures
        response.sessions@ == categorized(rows@, rules@, categories@, only),
        response.total == total,
        response.limit == page.limit,
        response.offset == page.offset,
{
    let mut sessions: Vec<SessionWithCategory> = Vec::new();
    let mut i: usize = 0;
    assert(rows@.take(0) =~= Seq::<SessionWithDuration>::empty());
    while i < rows.len()
        invariant
            i <= rows@.len(),
            sessions@ == categorized(rows@.take(i as int), rules@, categories@, only),
        decreases rows@.len() - i,
    {
        proof {
            assert(rows@.take(i + 1).drop_last() =~= rows@.take(i as int));
            assert(rows@.take(i + 1).last() == rows@[i as int]);
        }
        let category = get_category_for_app(rules, categories, rows[i].process_name.as_str());
        let keep: bool = match only {
            Some(id) => match &category {
                Some(c) => c.id == id,
                None => false,
            },
            None => true,
        };
        if keep {
            sessions.push(SessionWithCategory { session: rows[i].clone(), category });
        }
        i += 1;
    }
    assert(rows@.take(i as int) =~= rows@);
    SessionsResponse { sessions, total, limit: page.limit, offset: page.offset }
}

/// What is playing now.
#[derive(Debug)]
pub struct CurrentMedia {
    pub title: String,
    pub artist: String,
    pub album: String,
    pub source_app: String,
    /// Start of the playback, in RFC 3339 form.
    pub start_time: String,
    pub duration_secs: i64,
    pub is_playing: bool,
}

/// The answer to a query of the media log.
#[derive(Debug)]
pub struct MediaResponse {
    /// What is playing now, if anything.
    pub current: Option<CurrentMedia>,
    /// Rows of the media log.
    pub history: Vec<MediaRecord>,
    /// Number of rows that match, whatever the page.
    pub total: i64,
    pub limit: usize,
    pub offset: usize,
}

/// Whether `shown` tells of the media session `media` at `now`.
pub open spec fn shows(shown: CurrentMedia, media: MediaSessionView, now: Timestamp) -> bool {
    &&& shown.title@ == media.media_info.title
    &&& shown.artist@ == media.media_info.artist
    &&& shown.album@ == media.media_info.album
    &&& shown.source_app@ == media.media_info.source_app_id
    &&& shown.start_time@ == rfc3339(media.start_time)
    &&& shown.duration_secs == media.duration_secs(now)
    &&& shown.is_playing == media.media_info.is_playing()
}

/// Tells what is playing at `now`, from the current media session of the
/// store.
pub fn current_media_of(store: &ActivityStore, now: Timestamp) -> (current: Option<CurrentMedia>)
    ensures
        match current {
            Some(shown) => store@.current_media matches Some(media) && shows(shown, media, now),
            None => store@.current_media is None,
        },
{
    match store.current_media() {
        Some(media) => Some(
            CurrentMedia {
                title: media.media_info.title.clone(),
                artist: media.media_info.artist.clone(),
                album: media.media_info.album.clone(),
                source_app: media.media_info.source_app_id.clone(),
                start_time: media.start_time.to_rfc3339(),
                duration_secs: media.duration_secs(now),
                is_playing: media.media_info.is_playing(),
            },
        ),
        None => None,
    }
}

/// Puts together the answer to a query of the media log.
pub fn media_response(
    store: &ActivityStore,
    history: Vec<MediaRecord>,
    total: i64,
    page: Page,
    now: Timestamp,
) -> (response: MediaResponse)
    ensures
        match response.current {
            Some(shown) => store@.current_media matches Some(media) && shows(shown, media, now),
            None => store@.current_media is None,
        },
        response.history == history,
        response.total == total,
        response.limit == page.limit,
        response.offset == page.offset,
{
    MediaResponse {
        current: current_media_of(store, now),
        history,
        total,
        limit: page.limit,
        offset: page.offset,
    }
}

/// The totals of the day.
#[derive(Debug, Clone, Copy, PartialEq, Eq, Structural)]
pub struct StatsResponse {
    pub sessions: u32,
    pub unique_apps: u32,
    pub keystrokes: u64,
    pub clicks: u64,
    pub focus_time_secs: u64,
    pub media_time_secs: i64,
}

/// A count as the log holds it, taken as zero where it is negative.
pub open spec fn count_of(n: i64) -> int {
    if n < 0 {
        0
    } else {
        n as int
    }
}

/// The sum of `pick` over `rows`.
pub open spec fn row_total(rows: Seq<SessionWithDuration>, pick: spec_fn(SessionWithDuration) -> int) -> int
    decreases rows.len(),
{
    if rows.len() == 0 {
        0
    } else {
        row_total(rows.drop_last(), pick) + pick(rows.last())
    }
}

/// The process names of `rows`.
pub open spec fn row_names(rows: Seq<SessionWithDuration>) -> Seq<Seq<char>> {
    Seq::new(rows.len(), |i: int| rows[i].process_name@)
}

/// The process names of `rows` and of the current session.
pub open spec fn all_names(rows: Seq<SessionWithDuration>, current: Option<SessionView>) -> Seq<Seq<char>> {
    match current {
        Some(c) => row_names(rows).push(c.process_name),
        None => row_names(rows),
    }
}

/// The totals of the rows of today and of the current session at `now`: the
/// number of sessions, the number of different applications, and the sums of
/// keystrokes, clicks and seconds, each held within its type; a sum of
/// seconds below zero counts as zero.
pub open spec fn stats_totals(
    rows: Seq<SessionWithDuration>,
    current: Option<SessionView>,
    media_secs: int,
    now: Timestamp,
) -> StatsResponse {
    let extra = match current {
        Some(c) => (1int, c.keystrokes as int, c.mouse_clicks as int, c.duration_secs(now)),
        None => (0int, 0int, 0int, 0int),
    };
    StatsResponse {
        sessions: saturate_u32(rows.len() + extra.0),
        unique_apps: saturate_u32(all_names(rows, current).to_set().len() as int),
        keystrokes: saturate_u64(
            row_total(rows, |r: SessionWithDuration| count_of(r.keystrokes)) + extra.1,
        ),
        clicks: saturate_u64(
            row_total(rows, |r: SessionWithDuration| count_of(r.clicks)) + extra.2,
        ),
        focus_time_secs: saturate_u64(
            row_total(rows, |r: SessionWithDuration| r.duration_secs as int) + extra.3,
        ),
        media_time_secs: media_secs as i64,
    }
}

/// The texts of a list of strings.
pub open spec fn name_texts(names: Seq<String>) -> Seq<Seq<char>> {
    Seq::new(names.len(), |i: int| names[i]@)
}

/// Adds `name` to `seen` unless it is there.
fn note_name(seen: &mut Vec<String>, name: &str)
    requires
        name_texts(old(seen)@).no_duplicates(),
    ensures
        name_texts(final(seen)@).no_duplicates(),
        name_texts(final(seen)@).to_set() == name_texts(old(seen)@).to_set().insert(name@),
{
    let ghost before = name_texts(seen@);
    let mut i: usize = 0;
    while i < seen.len()
        invariant
            i <= seen@.len(),
            seen@ == old(seen)@,
            before == name_texts(old(seen)@),
            before.no_duplicates(),
            forall|k: int| 0 <= k < i ==> (#[trigger] seen@[k])@ != name@,
        decreases seen@.len() - i,
    {
        if str_eq(seen[i].as_str(), name) {
            proof {
                assert(before[i as int] == name@);
                assert(before.contains(name@));
                assert(before.to_set().insert(name@) =~= before.to_set());
            }
            return ;
        }
        i += 1;
    }
    seen.push(String::from_str(name));
    proof {
        let after = name_texts(seen@);
        assert(after =~= before.push(name@));
        before.lemma_push_to_set_commute(name@);
        assert forall|a: int, b: int| 0 <= a < after.len() && 0 <= b < after.len() && a
            != b implies after[a] != after[b] by {
            if a < before.len() && b < before.len() {
                assert(before[a] != before[b]);
            } else if a < before.len() {
                assert(before[a] == seen@[a]@);
            } else {
                assert(before[b] == seen@[b]@);
            }
        }
    }
}

/// Computes the totals of the day at `now` from the rows of today in the
/// session log, as `rows`, and from the store: its current session, which is
/// not in the log yet, and its media.
pub fn compute_stats(rows: &Vec<SessionWithDuration>, store: &ActivityStore, now: Timestamp) -> (stats: StatsResponse)
    ensures
        stats == stats_totals(rows@, store@.current_session, store@.media_time_secs(now), now),
{
    let ghost keys = |r: SessionWithDuration| count_of(r.keystrokes);
    let ghost clicks = |r: SessionWithDuration| count_of(r.clicks);
    let ghost secs = |r: SessionWithDuration| r.duration_secs as int;
    let mut total_keystrokes: u64 = 0;
    let mut total_clicks: u64 = 0;
    let mut total_secs: i128 = 0;
    let mut seen: Vec<String> = Vec::new();
    let mut i: usize = 0;
    proof {
        assert(rows@.take(0) =~= Seq::<SessionWithDuration>::empty());
        assert(name_texts(seen@) =~= Seq::<Seq<char>>::empty());
        assert(row_names(rows@.take(0)) =~= Seq::<Seq<char>>::empty());
    }
    while i < rows.len()
        invariant
            i <= rows@.len(),
            keys == |r: SessionWithDuration| count_of(r.keystrokes),
            clicks == |r: SessionWithDuration| count_of(r.clicks),
            secs == |r: SessionWithDuration| r.duration_secs as int,
            row_total(rows@.take(i as int), keys) >= 0,
            row_total(rows@.take(i as int), clicks) >= 0,
            total_keystrokes == saturate_u64(row_total(rows@.take(i as int), keys)),
            total_clicks == saturate_u64(row_total(rows@.take(i as int), clicks)),
            total_secs == row_total(rows@.take(i as int), secs),
            -(i as int) * 0x8000_0000_0000_0000 <= total_secs <= (i as int)
                * 0x8000_0000_0000_0000,
            name_texts(seen@).no_duplicates(),
            name_texts(seen@).to_set() == row_names(rows@.take(i as int)).to_set(),
        decreases rows@.len() - i,
    {
        proof {
            assert(rows@.take(i + 1).drop_last() =~= rows@.take(i as int));
            assert(rows@.take(i + 1).last() == rows@[i as int]);
            let names = row_names(rows@.take(i as int));
            assert(row_names(rows@.take(i + 1)) =~= names.push(rows@[i as int].process_name@));
            names.lemma_push_to_set_commute(rows@[i as int].process_name@);
        }
        let k: u64 = if rows[i].keystrokes < 0 {
            0
        } else {
            rows[i].keystrokes as u64
        };
        let c: u64 = if rows[i].clicks < 0 {
            0
        } else {
            rows[i].clicks as u64
        };
        total_keystrokes = total_keystrokes.saturating_add(k);
        total_clicks = total_clicks.saturating_add(c);
        total_secs = total_secs + rows[i].duration_secs as i128;
        note_name(&mut seen, rows[i].process_name.as_str());
        i += 1;
    }
    assert(rows@.take(i as int) =~= rows@);
    let mut sessions: u32 = if rows.len() > 0xffff_ffff {
        u32::MAX
    } else {
        rows.len() as u32
    };
    if let Some(current) = store.current_session() {
        sessions = sessions.saturating_add(1);
        total_keystrokes = total_keystrokes.saturating_add(current.keystrokes);
        total_clicks = total_clicks.saturating_add(current.mouse_clicks);
        total_secs = total_secs + current.duration_secs(now) as i128;
        proof {
            row_names(rows@).lemma_push_to_set_commute(current@.process_name);
        }
        note_name(&mut seen, current.process_name.as_str());
    }
    proof {
        name_texts(seen@).unique_seq_to_set();
    }
    let unique_apps: u32 = if seen.len() > 0xffff_ffff {
        u32::MAX
    } else {
        seen.len() as u32
    };
    let focus_time_secs: u64 = if total_secs < 0 {
        0
    } else if total_secs > 0xffff_ffff_ffff_ffff {
        u64::MAX
    } else {
        total_secs as u64
    };
    StatsResponse {
        sessions,
        unique_apps,
        keystrokes: total_keystrokes,
        clicks: total_clicks,
        focus_time_secs,
        media_time_secs: store.total_media_time_secs(now),
    }
}

/// The figures of one application, as the query layer gives them.
#[derive(Debug)]
pub struct AppStats {
    pub process_name: String,
    pub focus_time_secs: u64,
    pub keystrokes: u64,
    pub clicks: u64,
    pub session_count: u32,
}

/// Whether `shown` gives the figures `stats`.
pub open spec fn gives(shown: AppStats, stats: AppStatsView) -> bool {
    &&& shown.process_name@ == stats.process_name
    &&& shown.focus_time_secs == stats.total_focus_duration_secs
    &&& shown.keystrokes == stats.total_keystrokes
    &&& shown.clicks == stats.total_clicks
    &&& shown.session_count == stats.session_count
}

/// The applications of the store at `now`, the one with the most seconds of
/// focus first.
pub fn top_apps(store: &ActivityStore, now: Timestamp) -> (apps: Vec<AppStats>)
    ensures
        apps@.len() == store@.application_stats(now).len(),
        forall|i: int|
            0 <= i < apps@.len() ==> gives(
                #[trigger] apps@[i],
                ranked(store@.application_stats(now), StatsOrder::FocusTime)[i],
            ),
{
    let stats = store.compute_application_stats(now);
    let sorted = rank_stats(&stats, StatsOrder::FocusTime);
    let mut apps: Vec<AppStats> = Vec::new();
    let mut i: usize = 0;
    while i < sorted.len()
        invariant
            i <= sorted@.len(),
            apps@.len() == i,
            forall|k: int| 0 <= k < i ==> gives(#[trigger] apps@[k], stats_views(sorted@)[k]),
        decreases sorted@.len() - i,
    {
        apps.push(
            AppStats {
                process_name: sorted[i].process_name.clone(),
                focus_time_secs: sorted[i].total_focus_duration_secs,
                keystrokes: sorted[i].total_keystrokes,
                clicks: sorted[i].total_clicks,
                session_count: sorted[i].session_count,
            },
        );
        i += 1;
    }
    apps
}

/// What a client asks of the totals of a day.
#[derive(Debug)]
pub struct DailyQuery {
    /// The day, as `YYYY-MM-DD`; today where it is absent.
    pub date: Option<String>,
}

/// What a client asks of the hours of a day.
#[derive(Debug)]
pub struct HourlyQuery {
    /// The day, as `YYYY-MM-DD`; today where it is absent.
    pub date: Option<String>,
}

/// What a client asks of the timeline.
#[derive(Debug, Clone, Copy, PartialEq, Eq, Structural)]
pub struct TimelineQuery {
    /// Number of days; seven where it is absent.
    pub days: Option<i32>,
}

/// The day that is asked for: `date`, or `today` where it is absent.
pub fn date_or_today(date: &Option<String>, today: &str) -> (day: String)
    ensures
        day@ == match *date {
            Some(d) => d@,
            None => today@,
        },
{
    match date {
        Some(d) => d.clone(),
        None => String::from_str(today),
    }
}

impl DailyQuery {
    /// The day that is asked for.
    pub fn day(&self, today: &str) -> (day: String)
        ensures
            day@ == match self.date {
                Some(d) => d@,
                None => today@,
            },
    {
        date_or_today(&self.date, today)
    }
}

impl HourlyQuery {
    /// The day that is asked for.
    pub fn day(&self, today: &str) -> (day: String)
        ensures
            day@ == match self.date {
                Some(d) => d@,
                None => today@,
            },
    {
        date_or_today(&self.date, today)
    }
}

impl TimelineQuery {
    /// The number of days that is asked for.
    pub fn days(&self) -> (days: i32)
        ensures
            days == match self.days {
                Some(n) => n,
                None => DEFAULT_TIMELINE_DAYS,
            },
    {
        match self.days {
            Some(n) => n,
            None => DEFAULT_TIMELINE_DAYS,
        }
    }
}

/// One setting of the monitor.
#[derive(Debug)]
pub struct ConfigSetting {
    pub key: String,
    pub value: String,
    pub description: Option<String>,
}

/// The settings of the monitor.
#[derive(Debug)]
pub struct ConfigResponse {
    pub settings: Vec<ConfigSetting>,
}

impl ConfigResponse {
    /// The settings for the rows of the configuration: key, value and
    /// description of each, in their order.
    pub fn from_rows(rows: &Vec<(String, String, Option<String>)>) -> (response: ConfigResponse)
        ensures
            response.settings@.len() == rows@.len(),
            forall|i: int|
                0 <= i < rows@.len() ==> {
                    &&& (#[trigger] response.settings@[i]).key == rows@[i].0
                    &&& response.settings@[i].value == rows@[i].1
                    &&& text_of(response.settings@[i].description)
                        == text_of(rows@[i].2)
                },
    {
        let mut settings: Vec<ConfigSetting> = Vec::new();
        let mut i: usize = 0;
        while i < rows.len()
            invariant
                i <= rows@.len(),
                settings@.len() == i,
                forall|k: int|
                    0 <= k < i ==> {
                        &&& (#[trigger] settings@[k]).key == rows@[k].0
                        &&& settings@[k].value == rows@[k].1
                        &&& text_of(settings@[k].description)
                            == text_of(rows@[k].2)
                    },
            decreases rows@.len() - i,
        {
            settings.push(
                ConfigSetting {
                    key: rows[i].0.clone(),
                    value: rows[i].1.clone(),
                    description: copy_of(&rows[i].2),
                },
            );
            i += 1;
        }
        ConfigResponse { settings }
    }
}

/// A row of the session log, as it is stored.
#[derive(Debug)]
pub struct SessionRecord {
    pub id: i64,
    pub process_name: String,
    pub window_title: Option<String>,
    pub start_time: String,
    pub end_time: Option<String>,
    pub keystrokes: i64,
    pub clicks: i64,
    pub scrolls: i64,
    pub is_idle: bool,
}

/// The figures of one hour of a day, as the log sums them up.
#[derive(Debug, Clone, Copy, PartialEq, Eq, Structural)]
pub struct HourlyStats {
    /// The hour of the day, from 0 to 23.
    pub hour: i32,
    pub keystrokes: i64,
    pub clicks: i64,
    pub sessions: i64,
    pub focus_secs: i64,
}

/// The figures of one day of the timeline, as the log sums them up.
#[derive(Debug)]
pub struct DailyTimeline {
    /// The day, as `YYYY-MM-DD`.
    pub date: String,
    pub keystrokes: i64,
    pub clicks: i64,
    pub sessions: i64,
    pub focus_secs: i64,
}

/// The totals of one day, as the log sums them up.
#[derive(Debug)]
pub struct DailyStatsResponse {
    /// The day, as `YYYY-MM-DD`.
    pub date: String,
    pub keystrokes: i64,
    pub clicks: i64,
    pub focus_secs: i64,
}

/// A category with the patterns of the applications in it.
#[derive(Debug)]
pub struct CategoryWithApps {
    pub category: Category,
    pub apps: Vec<String>,
}

} // verus!
