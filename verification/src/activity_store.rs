//! The in-memory state of activity tracking: the current focus session, the
//! current media, the history, and the queues of what is yet to be persisted.
//!
//! Every operation takes the instant at which it happens, so that what it does
//! is a function of the state before it and of its arguments.

use crate::aggregator::{
    accumulate, accumulate_current, accumulated, accumulated_current, app_stats_of,
    compute_app_stats, distinct_names, total_of,
};
use crate::media::{media_views, MediaInfo, MediaInfoView, MediaSession, MediaSessionView};
use crate::time::{later_of, whole_seconds, Timestamp};
use crate::types::{
    saturate_u32, saturate_u64, session_views, stats_views, AppStatsView, ApplicationStats,
    DailySummary, SessionView, WindowSession,
};
use vstd::prelude::*;

verus! {

/// Seconds a session must last to be kept, unless configured otherwise.
pub const DEFAULT_MIN_SESSION_DURATION_SECS: i64 = 10;

/// Seconds without input after which the user counts as away, unless
/// configured otherwise.
pub const DEFAULT_AFK_THRESHOLD_SECS: i64 = 300;

/// Number of sessions kept in memory, unless configured otherwise.
pub const DEFAULT_MAX_SESSIONS: usize = 1000;

/// The settings the store works with.
#[derive(Debug, Clone, Copy, PartialEq, Eq, Structural)]
pub struct StoreConfig {
    /// A session shorter than this many seconds is dropped when it ends.
    pub min_session_duration_secs: i64,
    /// After more than this many seconds without input the user is away.
    pub afk_threshold_secs: i64,
}

impl Default for StoreConfig {
    fn default() -> (config: StoreConfig)
        ensures
            config == (StoreConfig {
                min_session_duration_secs: DEFAULT_MIN_SESSION_DURATION_SECS,
                afk_threshold_secs: DEFAULT_AFK_THRESHOLD_SECS,
            }),
    {
        StoreConfig {
            min_session_duration_secs: DEFAULT_MIN_SESSION_DURATION_SECS,
            afk_threshold_secs: DEFAULT_AFK_THRESHOLD_SECS,
        }
    }
}

/// The last `max` items of `items`, or all of them where there are no more.
pub open spec fn keep_last<T>(items: Seq<T>, max: nat) -> Seq<T> {
    if items.len() > max {
        items.skip(items.len() - max)
    } else {
        items
    }
}

/// What the store holds.
pub ghost struct StoreView {
    pub current_session: Option<SessionView>,
    pub completed_sessions: Seq<SessionView>,
    pub app_aggregates: Seq<AppStatsView>,
    pub last_poll_time: Option<Timestamp>,
    pub current_media: Option<MediaSessionView>,
    pub media_history: Seq<MediaSessionView>,
    pub last_input_time: Timestamp,
    pub pending_sessions: Seq<SessionView>,
    pub pending_media: Seq<MediaSessionView>,
    pub config: StoreConfig,
}

impl StoreView {
    /// An empty store whose last input is at `now`.
    pub open spec fn empty(config: StoreConfig, now: Timestamp) -> StoreView {
        StoreView {
            current_session: None,
            completed_sessions: Seq::empty(),
            app_aggregates: Seq::empty(),
            last_poll_time: None,
            current_media: None,
            media_history: Seq::empty(),
            last_input_time: now,
            pending_sessions: Seq::empty(),
            pending_media: Seq::empty(),
            config,
        }
    }

    /// What holds of every session that is kept: it has ended, its end is not
    /// before its start, it lasted the minimum, and if it is idle it counts no
    /// input.
    pub open spec fn persistable(self, session: SessionView) -> bool {
        &&& session.ends_in_order()
        &&& session.closed_duration() >= self.config.min_session_duration_secs
        &&& session.idle_is_silent()
    }

    /// The invariant of the store.
    pub open spec fn wf(self) -> bool {
        &&& forall|i: int|
            0 <= i < self.completed_sessions.len() ==> self.persistable(
                #[trigger] self.completed_sessions[i],
            )
        &&& forall|i: int|
            0 <= i < self.pending_sessions.len() ==> self.persistable(
                #[trigger] self.pending_sessions[i],
            )
        &&& (self.current_session matches Some(current) ==> current.idle_is_silent())
        &&& distinct_names(self.app_aggregates)
    }

    /// The store after `session` went through the rule for ended sessions: one
    /// that lasted the minimum is added to the figures, queued and appended to
    /// the history; a shorter one leaves no trace, and neither does one whose
    /// end lies before its start.
    pub open spec fn saved(self, session: SessionView) -> StoreView {
        if session.ends_in_order() && session.closed_duration()
            >= self.config.min_session_duration_secs {
            StoreView {
                app_aggregates: accumulated(
                    self.app_aggregates,
                    session,
                    session.closed_duration(),
                ),
                pending_sessions: self.pending_sessions.push(session),
                completed_sessions: self.completed_sessions.push(session),
                ..self
            }
        } else {
            self
        }
    }

    /// Whole seconds from the last input to `now`.
    pub open spec fn idle_gap(self, now: Timestamp) -> int {
        whole_seconds(now.nanos_since_epoch() - self.last_input_time.nanos_since_epoch())
    }

    /// Whether at `now` the last input lies further back than the threshold.
    pub open spec fn is_away(self, now: Timestamp) -> bool {
        self.idle_gap(now) > self.config.afk_threshold_secs
    }

    /// The store after the focus moved to another window at `now`.
    pub open spec fn switched(
        self,
        now: Timestamp,
        window_handle: isize,
        process_id: u32,
        process_name: Seq<char>,
        window_title: Seq<char>,
    ) -> StoreView {
        let base = match self.current_session {
            Some(old) => self.saved(old.ended_at(now)),
            None => self,
        };
        StoreView {
            current_session: Some(
                SessionView::fresh(window_handle, process_id, process_name, window_title, now),
            ),
            last_input_time: now,
            last_poll_time: Some(now),
            ..base
        }
    }

    /// The instant at which the active part of `session` ends: the last input,
    /// but not before the session began.
    pub open spec fn last_active(self, session: SessionView) -> Timestamp {
        later_of(self.last_input_time, session.start_time)
    }

    /// The active part of `session`: up to the last input, with all its counts.
    pub open spec fn active_slice(self, session: SessionView) -> SessionView {
        SessionView { end_time: Some(self.last_active(session)), is_idle: false, ..session }
    }

    /// The idle part of `session`: from the last input to `now`, with nothing
    /// counted.
    pub open spec fn idle_slice(self, session: SessionView, now: Timestamp) -> SessionView {
        SessionView {
            start_time: self.last_active(session),
            end_time: Some(now),
            keystrokes: 0,
            mouse_clicks: 0,
            mouse_scrolls: 0,
            is_idle: true,
            ..session
        }
    }

    /// A session in which nothing was counted, taken as idle from its start
    /// to `now`.
    pub open spec fn wholly_idle(session: SessionView, now: Timestamp) -> SessionView {
        SessionView { end_time: Some(now), is_idle: true, ..session }
    }

    /// A new session on the window of `session`, beginning at `now`.
    pub open spec fn reopened(session: SessionView, now: Timestamp) -> SessionView {
        SessionView::fresh(
            session.window_handle,
            session.process_id,
            session.process_name,
            session.window_title,
            now,
        )
    }

    /// The store after the idle check at `now`. While the user is away, a
    /// current session that is already idle has its end moved to `now`; one
    /// that is not is split into its active part, which ends, and its idle
    /// part, which becomes the current session.
    pub open spec fn idle_checked(self, now: Timestamp) -> StoreView {
        match self.current_session {
            None => self,
            Some(current) => if !self.is_away(now) {
                self
            } else if current.is_idle {
                StoreView { current_session: Some(current.ended_at(now)), ..self }
            } else if current.has_activity() {
                StoreView {
                    current_session: Some(self.idle_slice(current, now)),
                    ..self.saved(self.active_slice(current))
                }
            } else {
                StoreView { current_session: Some(Self::wholly_idle(current, now)), ..self }
            },
        }
    }

    /// The store after the user came back at `now` to the current session
    /// `current`: the idle time ends, and a new session begins on the same
    /// window.
    pub open spec fn resumed(self, current: SessionView, now: Timestamp) -> StoreView {
        let base = if current.is_idle {
            self.saved(current.ended_at(now))
        } else if current.has_activity() {
            self.saved(self.active_slice(current)).saved(self.idle_slice(current, now))
        } else {
            self.saved(Self::wholly_idle(current, now))
        };
        StoreView { current_session: Some(Self::reopened(current, now)), ..base }
    }

    /// The store before the counts of an input at `now` are added: with a
    /// nonzero input the user is back, and the last input is at `now`.
    pub open spec fn woken(self, now: Timestamp, keystrokes: u64, clicks: u64, scrolls: u64) -> StoreView {
        if keystrokes > 0 || clicks > 0 || scrolls > 0 {
            let base = match self.current_session {
                Some(current) => if current.is_idle || self.is_away(now) {
                    self.resumed(current, now)
                } else {
                    self
                },
                None => self,
            };
            StoreView { last_input_time: now, ..base }
        } else {
            self
        }
    }

    /// The store with the counts added to the current session, each sum held
    /// at the largest `u64`.
    pub open spec fn counted(self, keystrokes: u64, clicks: u64, scrolls: u64) -> StoreView {
        match self.current_session {
            Some(current) => StoreView {
                current_session: Some(
                    SessionView {
                        keystrokes: saturate_u64(current.keystrokes + keystrokes),
                        mouse_clicks: saturate_u64(current.mouse_clicks + clicks),
                        mouse_scrolls: saturate_u64(current.mouse_scrolls + scrolls),
                        ..current
                    },
                ),
                ..self
            },
            None => self,
        }
    }

    /// The store after an input of the given counts at `now`.
    pub open spec fn with_input(self, now: Timestamp, keystrokes: u64, clicks: u64, scrolls: u64) -> StoreView {
        self.woken(now, keystrokes, clicks, scrolls).counted(keystrokes, clicks, scrolls)
    }

    /// The store after the current media, if any, ended at `now`: it is queued
    /// and appended to the history.
    pub open spec fn media_closed(self, now: Timestamp) -> StoreView {
        match self.current_media {
            Some(media) => StoreView {
                current_media: None,
                pending_media: self.pending_media.push(media.ended_at(now)),
                media_history: self.media_history.push(media.ended_at(now)),
                ..self
            },
            None => self,
        }
    }

    /// The store after the player was observed at `now`.
    pub open spec fn media_updated(self, info: MediaInfoView, now: Timestamp) -> StoreView {
        let changed = match self.current_media {
            Some(media) => !media.media_info.same_media(info),
            None => true,
        };
        if changed && info.is_playing() {
            StoreView {
                current_media: Some(MediaSessionView::fresh(info, now)),
                ..self.media_closed(now)
            }
        } else if !info.is_playing() && self.current_media is Some {
            self.media_closed(now)
        } else {
            self
        }
    }

    /// The store with both histories cut down to their last `max` entries.
    pub open spec fn pruned(self, max: nat) -> StoreView {
        StoreView {
            completed_sessions: keep_last(self.completed_sessions, max),
            media_history: keep_last(self.media_history, max),
            ..self
        }
    }

    /// The store after the current session and the current media ended at
    /// `now`.
    pub open spec fn finalized(self, now: Timestamp) -> StoreView {
        let base = match self.current_session {
            Some(current) => StoreView {
                current_session: None,
                ..self.saved(current.ended_at(now))
            },
            None => self,
        };
        base.media_closed(now)
    }

    /// The figures of each application at `now`: those of the history, with
    /// the time and the input of the current session added to its application.
    pub open spec fn application_stats(self, now: Timestamp) -> Seq<AppStatsView> {
        let past = app_stats_of(self.completed_sessions, now);
        match self.current_session {
            Some(current) => accumulated_current(past, current, current.duration_secs(now)),
            None => past,
        }
    }

    /// The totals at `now`: sums over the figures of the applications, each
    /// held at the largest value of its type, the number of applications, and
    /// the number of sessions with the current one.
    pub open spec fn daily_summary(self, now: Timestamp) -> DailySummary {
        let stats = self.application_stats(now);
        DailySummary {
            total_keystrokes: saturate_u64(
                total_of(stats, |s: AppStatsView| s.total_keystrokes as int),
            ),
            total_clicks: saturate_u64(total_of(stats, |s: AppStatsView| s.total_clicks as int)),
            total_focus_time_secs: saturate_u64(
                total_of(stats, |s: AppStatsView| s.total_focus_duration_secs as int),
            ),
            app_count: saturate_u32(stats.len() as int),
            session_count: saturate_u32(
                self.completed_sessions.len() + if self.current_session is Some {
                    1int
                } else {
                    0int
                },
            ),
        }
    }

    /// Seconds of media at `now`: the lengths of the sessions of the history
    /// and of the current one, the sum held at the largest `i64`.
    pub open spec fn media_time_secs(self, now: Timestamp) -> int {
        let past = media_secs(self.media_history, now);
        let all = match self.current_media {
            Some(media) => past + media.duration_secs(now),
            None => past,
        };
        if all > i64::MAX {
            i64::MAX as int
        } else {
            all
        }
    }

    /// The most recent media sessions of the history, the latest first, ten
    /// at most.
    pub open spec fn media_summary(self) -> Seq<MediaSessionView> {
        let n = self.media_history.len();
        let count = if n > 10 {
            10
        } else {
            n
        };
        Seq::new(count, |i: int| self.media_history[n - 1 - i])
    }
}

/// The sum of the lengths of `sessions` in whole seconds; a session without an
/// end is counted up to `now`.
pub open spec fn media_secs(sessions: Seq<MediaSessionView>, now: Timestamp) -> int
    decreases sessions.len(),
{
    if sessions.len() == 0 {
        0
    } else {
        media_secs(sessions.drop_last(), now) + sessions.last().duration_secs(now)
    }
}

/// Saving a session that is silent where idle keeps the invariant.
pub proof fn lemma_saved_wf(store: StoreView, session: SessionView)
    requires
        store.wf(),
        session.idle_is_silent(),
    ensures
        store.saved(session).wf(),
        store.saved(session).current_session == store.current_session,
        store.saved(session).config == store.config,
        store.saved(session).last_input_time == store.last_input_time,
{
    let after = store.saved(session);
    if session.ends_in_order() && session.closed_duration()
        >= store.config.min_session_duration_secs {
        crate::aggregator::lemma_accumulated_distinct(
            store.app_aggregates,
            session,
            session.closed_duration(),
        );
        assert forall|i: int| 0 <= i < after.completed_sessions.len() implies after.persistable(
            #[trigger] after.completed_sessions[i],
        ) by {
            if i < store.completed_sessions.len() {
                assert(after.completed_sessions[i] == store.completed_sessions[i]);
            }
        }
        assert forall|i: int| 0 <= i < after.pending_sessions.len() implies after.persistable(
            #[trigger] after.pending_sessions[i],
        ) by {
            if i < store.pending_sessions.len() {
                assert(after.pending_sessions[i] == store.pending_sessions[i]);
            }
        }
    }
}

/// The store of all activity data.
#[derive(Debug)]
pub struct ActivityStore {
    current_session: Option<WindowSession>,
    completed_sessions: Vec<WindowSession>,
    app_aggregates: Vec<ApplicationStats>,
    last_poll_time: Option<Timestamp>,
    current_media: Option<MediaSession>,
    media_history: Vec<MediaSession>,
    last_input_time: Timestamp,
    pending_sessions: Vec<WindowSession>,
    pending_media: Vec<MediaSession>,
    config: StoreConfig,
}

impl View for ActivityStore {
    type V = StoreView;

    closed spec fn view(&self) -> StoreView {
        StoreView {
            current_session: match self.current_session {
                Some(s) => Some(s@),
                None => None,
            },
            completed_sessions: session_views(self.completed_sessions@),
            app_aggregates: stats_views(self.app_aggregates@),
            last_poll_time: self.last_poll_time,
            current_media: match self.current_media {
                Some(m) => Some(m@),
                None => None,
            },
            media_history: media_views(self.media_history@),
            last_input_time: self.last_input_time,
            pending_sessions: session_views(self.pending_sessions@),
            pending_media: media_views(self.pending_media@),
            config: self.config,
        }
    }
}

impl ActivityStore {
    /// The invariant of the store; every operation keeps it.
    pub open spec fn wf(&self) -> bool {
        self@.wf()
    }

    /// An empty store with the default settings, whose last input is at `now`.
    pub fn new(now: Timestamp) -> (store: ActivityStore)
        ensures
            store@ == StoreView::empty(
                StoreConfig {
                    min_session_duration_secs: DEFAULT_MIN_SESSION_DURATION_SECS,
                    afk_threshold_secs: DEFAULT_AFK_THRESHOLD_SECS,
                },
                now,
            ),
            store.wf(),
    {
        ActivityStore::with_config(StoreConfig::default(), now)
    }

    /// An empty store with the given settings, whose last input is at `now`.
    pub fn with_config(config: StoreConfig, now: Timestamp) -> (store: ActivityStore)
        ensures
            store@ == StoreView::empty(config, now),
            store.wf(),
    {
        let store = ActivityStore {
            current_session: None,
            completed_sessions: Vec::new(),
            app_aggregates: Vec::new(),
            last_poll_time: None,
            current_media: None,
            media_history: Vec::new(),
            last_input_time: now,
            pending_sessions: Vec::new(),
            pending_media: Vec::new(),
            config,
        };
        assert(store@.completed_sessions =~= Seq::empty());
        assert(store@.pending_sessions =~= Seq::empty());
        assert(store@.app_aggregates =~= Seq::empty());
        assert(store@.media_history =~= Seq::empty());
        assert(store@.pending_media =~= Seq::empty());
        store
    }

    /// Applies the rule for ended sessions to `session`: if it lasted the
    /// minimum, and did not end before it began, it is added to the figures,
    /// queued and appended to the history; else it is dropped.
    fn save_session_if_valid(&mut self, session: WindowSession)
        requires
            old(self).wf(),
            session@.idle_is_silent(),
        ensures
            final(self)@ == old(self)@.saved(session@),
            final(self).wf(),
    {
        proof {
            lemma_saved_wf(self@, session@);
        }
        match session.end_time {
            Some(end) => {
                let secs: i64 = end.elapsed_secs_since(&session.start_time);
                if !end.is_before(&session.start_time) && secs
                    >= self.config.min_session_duration_secs {
                    accumulate(&mut self.app_aggregates, &session, end);
                    self.pending_sessions.push(session.clone());
                    self.completed_sessions.push(session);
                    proof {
                        assert(self@.pending_sessions =~= old(self)@.pending_sessions.push(
                            session@,
                        ));
                        assert(self@.completed_sessions =~= old(self)@.completed_sessions.push(
                            session@,
                        ));
                    }
                }
            },
            None => {},
        }
    }

    /// Moves the focus to another window at `now`. The session that was
    /// current ends at `now` and goes through the rule for ended sessions; a
    /// new session begins, and the last input is taken to be at `now`.
    pub fn switch_session(
        &mut self,
        now: Timestamp,
        hwnd: isize,
        pid: u32,
        process_name: &str,
        window_title: &str,
    )
        requires
            old(self).wf(),
        ensures
            final(self)@ == old(self)@.switched(now, hwnd, pid, process_name@, window_title@),
            final(self).wf(),
    {
        if let Some(mut old_session) = self.current_session.take() {
            old_session.finalize(now);
            self.save_session_if_valid(old_session);
        }
        self.current_session = Some(
            WindowSession::new(hwnd, pid, process_name.to_owned(), window_title.to_owned(), now),
        );
        self.last_input_time = now;
        self.last_poll_time = Some(now);
    }

    /// Handle of the window of the current session, if there is one.
    pub fn current_window_handle(&self) -> (handle: Option<isize>)
        ensures
            handle == match self@.current_session {
                Some(s) => Some(s.window_handle),
                None => None,
            },
    {
        match &self.current_session {
            Some(s) => Some(s.window_handle),
            None => None,
        }
    }

    /// Ends the idle time of the current session `session` at `now` and begins
    /// a new session on the same window.
    fn split_on_resume_from_idle(&mut self, session: WindowSession, now: Timestamp)
        requires
            old(self).wf(),
            old(self)@.current_session is None,
            session@.idle_is_silent(),
        ensures
            final(self)@ == (StoreView { current_session: Some(session@), ..old(self)@ }).resumed(
                session@,
                now,
            ),
            final(self).wf(),
    {
        let ghost start = StoreView { current_session: Some(session@), ..self@ };
        let again = WindowSession::new(
            session.window_handle,
            session.process_id,
            session.process_name.clone(),
            session.window_title.clone(),
            now,
        );
        if session.is_idle {
            let mut idle = session;
            idle.finalize(now);
            self.save_session_if_valid(idle);
        } else if session.has_activity() {
            let last_active = self.last_input_time.max(session.start_time);
            let mut active = session.clone();
            active.end_time = Some(last_active);
            active.is_idle = false;
            self.save_session_if_valid(active);
            let mut idle = session;
            idle.start_time = last_active;
            idle.end_time = Some(now);
            idle.keystrokes = 0;
            idle.mouse_clicks = 0;
            idle.mouse_scrolls = 0;
            idle.is_idle = true;
            self.save_session_if_valid(idle);
        } else {
            let mut idle = session;
            idle.end_time = Some(now);
            idle.is_idle = true;
            self.save_session_if_valid(idle);
        }
        self.current_session = Some(again);
    }

    /// Adds input counted at `now` to the current session. A nonzero input
    /// that finds the current session idle, or the last input further back
    /// than the threshold, first ends the idle time and begins a new session
    /// on the same window; it then becomes the last input.
    pub fn add_input_counts(&mut self, now: Timestamp, keystrokes: u64, clicks: u64, scrolls: u64)
        requires
            old(self).wf(),
        ensures
            final(self)@ == old(self)@.with_input(now, keystrokes, clicks, scrolls),
            final(self).wf(),
    {
        if keystrokes > 0 || clicks > 0 || scrolls > 0 {
            let gap: i64 = now.whole_seconds_since(&self.last_input_time);
            let away: bool = gap > self.config.afk_threshold_secs;
            let resume: bool = match &self.current_session {
                Some(s) => s.is_idle || away,
                None => false,
            };
            if resume {
                if let Some(session) = self.current_session.take() {
                    self.split_on_resume_from_idle(session, now);
                }
            }
            self.last_input_time = now;
        }
        assert(self@ == old(self)@.woken(now, keystrokes, clicks, scrolls));
        if let Some(mut session) = self.current_session.take() {
            session.keystrokes = session.keystrokes.saturating_add(keystrokes);
            session.mouse_clicks = session.mouse_clicks.saturating_add(clicks);
            session.mouse_scrolls = session.mouse_scrolls.saturating_add(scrolls);
            self.current_session = Some(session);
        }
    }

    /// Checks at `now` whether the user is away. While the last input lies
    /// further back than the threshold, a current session that is already idle
    /// has its end moved to `now`; one that is not is split: its active part
    /// ends at the last input, and its idle part becomes the current session.
    pub fn check_and_split_on_idle(&mut self, now: Timestamp)
        requires
            old(self).wf(),
        ensures
            final(self)@ == old(self)@.idle_checked(now),
            final(self).wf(),
    {
        if self.current_session.is_none() {
            return ;
        }
        let gap: i64 = now.whole_seconds_since(&self.last_input_time);
        if gap > self.config.afk_threshold_secs {
            if let Some(mut session) = self.current_session.take() {
                if session.is_idle {
                    session.end_time = Some(now);
                    self.current_session = Some(session);
                } else if session.has_activity() {
                    let last_active = self.last_input_time.max(session.start_time);
                    let mut active = session.clone();
                    active.end_time = Some(last_active);
                    active.is_idle = false;
                    self.save_session_if_valid(active);
                    session.start_time = last_active;
                    session.end_time = Some(now);
                    session.keystrokes = 0;
                    session.mouse_clicks = 0;
                    session.mouse_scrolls = 0;
                    session.is_idle = true;
                    self.current_session = Some(session);
                } else {
                    session.end_time = Some(now);
                    session.is_idle = true;
                    self.current_session = Some(session);
                }
            }
        }
    }

    /// Number of sessions in the history.
    pub fn session_count(&self) -> (count: usize)
        ensures
            count == self@.completed_sessions.len(),
    {
        self.completed_sessions.len()
    }

    /// Ends the current media, if any, at `now`: it is queued and appended to
    /// the history.
    fn close_media(&mut self, now: Timestamp)
        requires
            old(self).wf(),
        ensures
            final(self)@ == old(self)@.media_closed(now),
            final(self).wf(),
    {
        if let Some(mut media) = self.current_media.take() {
            media.finalize(now);
            self.pending_media.push(media.clone());
            self.media_history.push(media);
            proof {
                let ended = old(self)@.current_media->0.ended_at(now);
                assert(self@.pending_media =~= old(self)@.pending_media.push(ended));
                assert(self@.media_history =~= old(self)@.media_history.push(ended));
            }
        }
    }

    /// Takes note of what the player reports at `now`. Playing media that is
    /// not the current one ends the current one and begins a session; a player
    /// that does not play ends the current one; anything else changes nothing.
    pub fn update_media(&mut self, media_info: MediaInfo, now: Timestamp)
        requires
            old(self).wf(),
        ensures
            final(self)@ == old(self)@.media_updated(media_info@, now),
            final(self).wf(),
    {
        let changed: bool = match &self.current_media {
            Some(current) => !current.is_same_media(&media_info),
            None => true,
        };
        let playing: bool = media_info.is_playing();
        if changed && playing {
            self.close_media(now);
            self.current_media = Some(MediaSession::new(media_info, now));
        } else if !playing && self.current_media.is_some() {
            self.close_media(now);
        }
    }

    /// Takes the sessions that wait to be persisted; the queue is empty after.
    /// Each of them has ended, not before it began, lasted the minimum, and
    /// counts no input if idle.
    pub fn drain_pending_sessions(&mut self) -> (drained: Vec<WindowSession>)
        requires
            old(self).wf(),
        ensures
            session_views(drained@) == old(self)@.pending_sessions,
            final(self)@ == (StoreView { pending_sessions: Seq::empty(), ..old(self)@ }),
            final(self).wf(),
            forall|i: int|
                0 <= i < drained@.len() ==> old(self)@.persistable((#[trigger] drained@[i])@),
    {
        let mut drained: Vec<WindowSession> = Vec::new();
        core::mem::swap(&mut self.pending_sessions, &mut drained);
        proof {
            assert(self@.pending_sessions =~= Seq::empty());
            assert forall|i: int| 0 <= i < drained@.len() implies old(self)@.persistable(
                (#[trigger] drained@[i])@,
            ) by {
                assert(old(self)@.pending_sessions[i] == drained@[i]@);
            }
        }
        drained
    }

    /// Takes the media sessions that wait to be persisted; the queue is empty
    /// after.
    pub fn drain_pending_media(&mut self) -> (drained: Vec<MediaSession>)
        requires
            old(self).wf(),
        ensures
            media_views(drained@) == old(self)@.pending_media,
            final(self)@ == (StoreView { pending_media: Seq::empty(), ..old(self)@ }),
            final(self).wf(),
    {
        let mut drained: Vec<MediaSession> = Vec::new();
        core::mem::swap(&mut self.pending_media, &mut drained);
        proof {
            assert(self@.pending_media =~= Seq::empty());
        }
        drained
    }

    /// Whether anything waits to be persisted.
    pub fn has_pending_saves(&self) -> (pending: bool)
        ensures
            pending == (self@.pending_sessions.len() > 0 || self@.pending_media.len() > 0),
    {
        self.pending_sessions.len() > 0 || self.pending_media.len() > 0
    }

    /// Ends the current session and the current media at `now`, before the
    /// monitor shuts down. The session goes through the rule for ended
    /// sessions; the media is queued.
    pub fn finalize_current_session(&mut self, now: Timestamp)
        requires
            old(self).wf(),
        ensures
            final(self)@ == old(self)@.finalized(now),
            final(self).wf(),
    {
        if let Some(mut session) = self.current_session.take() {
            session.finalize(now);
            self.save_session_if_valid(session);
        }
        self.close_media(now);
    }

    /// Cuts both histories down to their last `max_sessions` entries.
    pub fn prune_old_sessions(&mut self, max_sessions: usize)
        requires
            old(self).wf(),
        ensures
            final(self)@ == old(self)@.pruned(max_sessions as nat),
            final(self).wf(),
    {
        if self.completed_sessions.len() > max_sessions {
            let drop_count: usize = self.completed_sessions.len() - max_sessions;
            let kept = self.completed_sessions.split_off(drop_count);
            self.completed_sessions = kept;
            proof {
                assert(self@.completed_sessions =~= keep_last(
                    old(self)@.completed_sessions,
                    max_sessions as nat,
                ));
            }
        }
        if self.media_history.len() > max_sessions {
            let drop_count: usize = self.media_history.len() - max_sessions;
            let kept = self.media_history.split_off(drop_count);
            self.media_history = kept;
            proof {
                assert(self@.media_history =~= keep_last(
                    old(self)@.media_history,
                    max_sessions as nat,
                ));
            }
        }
    }
    /// The current session, if there is one.
    pub fn current_session(&self) -> (current: Option<&WindowSession>)
        ensures
            match current {
                Some(s) => self@.current_session == Some(s@),
                None => self@.current_session is None,
            },
    {
        self.current_session.as_ref()
    }

    /// The history of sessions, the oldest first.
    pub fn completed_sessions(&self) -> (history: &Vec<WindowSession>)
        ensures
            session_views(history@) == self@.completed_sessions,
    {
        &self.completed_sessions
    }

    /// The figures that were added up as sessions ended, one entry for each
    /// application.
    pub fn app_aggregates(&self) -> (stats: &Vec<ApplicationStats>)
        ensures
            stats_views(stats@) == self@.app_aggregates,
    {
        &self.app_aggregates
    }

    /// The current media session, if there is one.
    pub fn current_media(&self) -> (current: Option<&MediaSession>)
        ensures
            match current {
                Some(m) => self@.current_media == Some(m@),
                None => self@.current_media is None,
            },
    {
        self.current_media.as_ref()
    }

    /// The history of media sessions, the oldest first.
    pub fn media_history(&self) -> (history: &Vec<MediaSession>)
        ensures
            media_views(history@) == self@.media_history,
    {
        &self.media_history
    }

    /// The instant of the last input.
    pub fn last_input_time(&self) -> (at: Timestamp)
        ensures
            at == self@.last_input_time,
    {
        self.last_input_time
    }

    /// The instant of the last change of focus, if there was one.
    pub fn last_poll_time(&self) -> (at: Option<Timestamp>)
        ensures
            at == self@.last_poll_time,
    {
        self.last_poll_time
    }

    /// The settings of the store.
    pub fn config(&self) -> (config: StoreConfig)
        ensures
            config == self@.config,
    {
        self.config
    }

    /// Computes the figures of each application at `now`, one entry for each
    /// application in the order of first occurrence: the sessions of the
    /// history, and the time and the input of the current session, which is
    /// not counted as a session.
    pub fn compute_application_stats(&self, now: Timestamp) -> (stats: Vec<ApplicationStats>)
        ensures
            stats_views(stats@) == self@.application_stats(now),
            distinct_names(stats_views(stats@)),
    {
        let mut stats = compute_app_stats(self.completed_sessions.as_slice(), now);
        if let Some(current) = &self.current_session {
            accumulate_current(&mut stats, current, now);
        }
        stats
    }

    /// Sums up the activity at `now`.
    pub fn get_daily_summary(&self, now: Timestamp) -> (summary: DailySummary)
        ensures
            summary == self@.daily_summary(now),
    {
        let stats = self.compute_application_stats(now);
        let ghost views = stats_views(stats@);
        let ghost keys = |s: AppStatsView| s.total_keystrokes as int;
        let ghost clicks = |s: AppStatsView| s.total_clicks as int;
        let ghost focus = |s: AppStatsView| s.total_focus_duration_secs as int;
        let mut total_keystrokes: u64 = 0;
        let mut total_clicks: u64 = 0;
        let mut total_focus_time_secs: u64 = 0;
        let mut i: usize = 0;
        assert(views.take(0) =~= Seq::<AppStatsView>::empty());
        while i < stats.len()
            invariant
                i <= stats@.len(),
                views == stats_views(stats@),
                keys == |s: AppStatsView| s.total_keystrokes as int,
                clicks == |s: AppStatsView| s.total_clicks as int,
                focus == |s: AppStatsView| s.total_focus_duration_secs as int,
                total_of(views.take(i as int), keys) >= 0,
                total_of(views.take(i as int), clicks) >= 0,
                total_of(views.take(i as int), focus) >= 0,
                total_keystrokes == saturate_u64(total_of(views.take(i as int), keys)),
                total_clicks == saturate_u64(total_of(views.take(i as int), clicks)),
                total_focus_time_secs == saturate_u64(total_of(views.take(i as int), focus)),
            decreases stats@.len() - i,
        {
            proof {
                assert(views.take(i + 1).drop_last() =~= views.take(i as int));
                assert(views.take(i + 1).last() == stats@[i as int]@);
            }
            total_keystrokes = total_keystrokes.saturating_add(stats[i].total_keystrokes);
            total_clicks = total_clicks.saturating_add(stats[i].total_clicks);
            total_focus_time_secs = total_focus_time_secs.saturating_add(
                stats[i].total_focus_duration_secs,
            );
            i += 1;
        }
        assert(views.take(i as int) =~= views);
        let app_count: u32 = if stats.len() > 0xffff_ffff {
            u32::MAX
        } else {
            stats.len() as u32
        };
        let sessions: usize = self.completed_sessions.len();
        let with_current: u32 = if self.current_session.is_some() {
            1
        } else {
            0
        };
        let session_count: u32 = if sessions >= 0xffff_ffff {
            u32::MAX
        } else {
            (sessions as u32).saturating_add(with_current)
        };
        DailySummary {
            total_keystrokes,
            total_clicks,
            total_focus_time_secs,
            app_count,
            session_count,
        }
    }

    /// The most recent media sessions of the history, the latest first, ten
    /// at most.
    pub fn get_media_summary(&self) -> (recent: Vec<&MediaSession>)
        ensures
            recent@.len() == self@.media_summary().len(),
            forall|i: int|
                0 <= i < recent@.len() ==> (#[trigger] recent@[i])@ == self@.media_summary()[i],
    {
        let mut recent: Vec<&MediaSession> = Vec::new();
        let n: usize = self.media_history.len();
        let count: usize = if n > 10 {
            10
        } else {
            n
        };
        let mut i: usize = 0;
        while i < count
            invariant
                i <= count <= n,
                n == self.media_history@.len(),
                count == self@.media_summary().len(),
                recent@.len() == i,
                forall|j: int|
                    0 <= j < i ==> (#[trigger] recent@[j])@ == self@.media_summary()[j],
            decreases count - i,
        {
            recent.push(&self.media_history[n - 1 - i]);
            i += 1;
        }
        recent
    }

    /// Seconds of media at `now`: the lengths of all media sessions of the
    /// history and of the current one.
    pub fn total_media_time_secs(&self, now: Timestamp) -> (secs: i64)
        ensures
            secs == self@.media_time_secs(now),
    {
        let ghost views = media_views(self.media_history@);
        let mut total: i64 = 0;
        let mut i: usize = 0;
        assert(views.take(0) =~= Seq::<MediaSessionView>::empty());
        while i < self.media_history.len()
            invariant
                i <= self.media_history@.len(),
                views == media_views(self.media_history@),
                media_secs(views.take(i as int), now) >= 0,
                total == if media_secs(views.take(i as int), now) > i64::MAX {
                    i64::MAX as int
                } else {
                    media_secs(views.take(i as int), now)
                },
            decreases self.media_history@.len() - i,
        {
            proof {
                assert(views.take(i + 1).drop_last() =~= views.take(i as int));
                assert(views.take(i + 1).last() == self.media_history@[i as int]@);
            }
            let secs: i64 = self.media_history[i].duration_secs(now);
            total = if total > i64::MAX - secs {
                i64::MAX
            } else {
                total + secs
            };
            i += 1;
        }
        assert(views.take(i as int) =~= views);
        match &self.current_media {
            Some(media) => {
                let secs: i64 = media.duration_secs(now);
                if total > i64::MAX - secs {
                    i64::MAX
                } else {
                    total + secs
                }
            },
            None => total,
        }
    }
}

/// Every session in the queue and in the history has an end that is not
/// before its start, and lasted the minimum.
pub proof fn lemma_kept_sessions_span(store: StoreView, session: SessionView)
    requires
        store.wf(),
        store.pending_sessions.contains(session) || store.completed_sessions.contains(session),
    ensures
        session.end_time is Some,
        session.end_time->0.nanos_since_epoch() >= session.start_time.nanos_since_epoch(),
        session.closed_duration() >= store.config.min_session_duration_secs,
{
}

/// Every idle session in the queue and in the history counts no keystroke, no
/// click and no scroll.
pub proof fn lemma_kept_idle_sessions_are_silent(store: StoreView, session: SessionView)
    requires
        store.wf(),
        store.pending_sessions.contains(session) || store.completed_sessions.contains(session),
        session.is_idle,
    ensures
        session.keystrokes == 0,
        session.mouse_clicks == 0,
        session.mouse_scrolls == 0,
{
}

/// A session with input that is split on idle gives an active part that keeps
/// its counts and an idle part that counts nothing; the active part ends where
/// the idle part begins, and the idle part ends at the instant of the split.
/// Where that instant is not before the start of the session, neither part
/// ends before it begins.
pub proof fn lemma_split_parts(store: StoreView, current: SessionView, now: Timestamp)
    requires
        current.has_activity(),
        store.is_away(now),
        store.config.afk_threshold_secs >= 0,
        now.nanos_since_epoch() >= current.start_time.nanos_since_epoch(),
    ensures
        ({
            let active = store.active_slice(current);
            let idle = store.idle_slice(current, now);
            &&& !active.is_idle
            &&& active.keystrokes == current.keystrokes
            &&& active.mouse_clicks == current.mouse_clicks
            &&& active.mouse_scrolls == current.mouse_scrolls
            &&& idle.is_idle
            &&& idle.keystrokes == 0 && idle.mouse_clicks == 0 && idle.mouse_scrolls == 0
            &&& active.start_time == current.start_time
            &&& active.end_time == Some(idle.start_time)
            &&& idle.end_time == Some(now)
            &&& active.start_time.nanos_since_epoch() <= idle.start_time.nanos_since_epoch()
                <= now.nanos_since_epoch()
        }),
{
}

/// The idle check splits a current session with input, once the user is away,
/// into exactly two: the active part goes through the rule for ended
/// sessions, and the idle part is the current session after.
pub proof fn lemma_idle_check_splits(store: StoreView, current: SessionView, now: Timestamp)
    requires
        store.current_session == Some(current),
        !current.is_idle,
        current.has_activity(),
        store.is_away(now),
    ensures
        store.idle_checked(now).current_session == Some(store.idle_slice(current, now)),
        store.idle_checked(now) == (StoreView {
            current_session: Some(store.idle_slice(current, now)),
            ..store.saved(store.active_slice(current))
        }),
{
}

/// Input that finds the user away on a session with input, not yet split,
/// gives exactly three sessions: the active part and the idle part go through
/// the rule for ended sessions, and a new session, which begins where the idle
/// part ends, holds the input.
pub proof fn lemma_resume_splits(
    store: StoreView,
    current: SessionView,
    now: Timestamp,
    keystrokes: u64,
    clicks: u64,
    scrolls: u64,
)
    requires
        store.current_session == Some(current),
        !current.is_idle,
        current.has_activity(),
        store.is_away(now),
        keystrokes > 0 || clicks > 0 || scrolls > 0,
    ensures
        ({
            let after = store.with_input(now, keystrokes, clicks, scrolls);
            let active = store.active_slice(current);
            let idle = store.idle_slice(current, now);
            &&& after.current_session matches Some(begun)
            &&& begun.start_time == now
            &&& idle.end_time == Some(begun.start_time)
            &&& begun.end_time is None
            &&& !begun.is_idle
            &&& begun.keystrokes == keystrokes && begun.mouse_clicks == clicks
                && begun.mouse_scrolls == scrolls
            &&& begun.window_handle == current.window_handle
            &&& begun.process_name == current.process_name
            &&& after.pending_sessions == store.saved(active).saved(idle).pending_sessions
            &&& after.completed_sessions == store.saved(active).saved(idle).completed_sessions
        }),
{
}

/// Input that finds the current session idle ends it at the instant of the
/// input and begins a new session on the same window at that instant.
pub proof fn lemma_input_ends_idle(
    store: StoreView,
    current: SessionView,
    now: Timestamp,
    keystrokes: u64,
    clicks: u64,
    scrolls: u64,
)
    requires
        store.current_session == Some(current),
        current.is_idle,
        keystrokes > 0 || clicks > 0 || scrolls > 0,
    ensures
        ({
            let after = store.with_input(now, keystrokes, clicks, scrolls);
            &&& after.current_session matches Some(begun)
            &&& begun.start_time == now
            &&& !begun.is_idle
            &&& begun.keystrokes == keystrokes && begun.mouse_clicks == clicks
                && begun.mouse_scrolls == scrolls
            &&& after.pending_sessions == store.saved(current.ended_at(now)).pending_sessions
        }),
{
}

/// Media with the title and the artist of the current media session never
/// begins a new session, whatever its album: while it plays nothing changes,
/// and when it does not the current session ends.
pub proof fn lemma_same_media_never_splits(store: StoreView, info: MediaInfoView, now: Timestamp)
    requires
        store.current_media matches Some(media) && media.media_info.same_media(info),
    ensures
        info.is_playing() ==> store.media_updated(info, now) == store,
        !info.is_playing() ==> store.media_updated(info, now) == store.media_closed(now),
        !info.is_playing() ==> store.media_updated(info, now).current_media is None,
        store.media_updated(info, now).current_media matches Some(after) ==> Some(after)
            == store.current_media,
{
}

} // verus!
