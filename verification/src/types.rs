//! Value types of activity tracking: a window focus session and the figures
//! derived from sessions.

use crate::time::{elapsed_secs, Timestamp};
use vstd::prelude::*;

verus! {

/// The sum of a count and an addition, held at the largest `u64` where it
/// would pass it.
pub open spec fn saturate_u64(total: int) -> u64 {
    if total > u64::MAX {
        u64::MAX
    } else if total < 0 {
        0
    } else {
        total as u64
    }
}

/// As `saturate_u64`, for a 32-bit count.
pub open spec fn saturate_u32(total: int) -> u32 {
    if total > u32::MAX {
        u32::MAX
    } else if total < 0 {
        0
    } else {
        total as u32
    }
}

/// One stretch of time during which one window had the focus.
#[derive(Debug)]
pub struct WindowSession {
    /// Handle of the window; meaningful inside the running process only.
    pub window_handle: isize,
    /// Id of the process that owns the window.
    pub process_id: u32,
    /// Name of the executable.
    pub process_name: String,
    /// Title of the window when the session began.
    pub window_title: String,
    /// When the window gained the focus.
    pub start_time: Timestamp,
    /// When the window lost the focus; `None` while the session is current.
    pub end_time: Option<Timestamp>,
    /// Keystrokes made while the window had the focus.
    pub keystrokes: u64,
    /// Mouse clicks, all buttons together.
    pub mouse_clicks: u64,
    /// Mouse scroll events.
    pub mouse_scrolls: u64,
    /// Whether the session stands for time away from the keyboard.
    pub is_idle: bool,
}

/// What a session holds, with its texts as sequences of characters.
pub ghost struct SessionView {
    pub window_handle: isize,
    pub process_id: u32,
    pub process_name: Seq<char>,
    pub window_title: Seq<char>,
    pub start_time: Timestamp,
    pub end_time: Option<Timestamp>,
    pub keystrokes: u64,
    pub mouse_clicks: u64,
    pub mouse_scrolls: u64,
    pub is_idle: bool,
}

impl SessionView {
    /// Whether any input was counted in the session.
    pub open spec fn has_activity(self) -> bool {
        self.keystrokes > 0 || self.mouse_clicks > 0 || self.mouse_scrolls > 0
    }

    /// Length of the session in whole seconds: up to its end, or up to `now`
    /// while it has none.
    pub open spec fn duration_secs(self, now: Timestamp) -> int {
        match self.end_time {
            Some(end) => elapsed_secs(self.start_time, end),
            None => elapsed_secs(self.start_time, now),
        }
    }

    /// Length in whole seconds of a session that has ended.
    pub open spec fn closed_duration(self) -> int
        recommends
            self.end_time is Some,
    {
        elapsed_secs(self.start_time, self.end_time->0)
    }

    /// The session has an end, and the end is not before the start.
    pub open spec fn ends_in_order(self) -> bool {
        self.end_time matches Some(end) && end.nanos_since_epoch()
            >= self.start_time.nanos_since_epoch()
    }

    /// The session with its end set to `now`.
    pub open spec fn ended_at(self, now: Timestamp) -> SessionView {
        SessionView { end_time: Some(now), ..self }
    }

    /// A session that begins at `now` with nothing counted.
    pub open spec fn fresh(
        window_handle: isize,
        process_id: u32,
        process_name: Seq<char>,
        window_title: Seq<char>,
        now: Timestamp,
    ) -> SessionView {
        SessionView {
            window_handle,
            process_id,
            process_name,
            window_title,
            start_time: now,
            end_time: None,
            keystrokes: 0,
            mouse_clicks: 0,
            mouse_scrolls: 0,
            is_idle: false,
        }
    }

    /// An idle session counts no input.
    pub open spec fn idle_is_silent(self) -> bool {
        self.is_idle ==> !self.has_activity()
    }
}

impl View for WindowSession {
    type V = SessionView;

    open spec fn view(&self) -> SessionView {
        SessionView {
            window_handle: self.window_handle,
            process_id: self.process_id,
            process_name: self.process_name@,
            window_title: self.window_title@,
            start_time: self.start_time,
            end_time: self.end_time,
            keystrokes: self.keystrokes,
            mouse_clicks: self.mouse_clicks,
            mouse_scrolls: self.mouse_scrolls,
            is_idle: self.is_idle,
        }
    }
}

impl Clone for WindowSession {
    fn clone(&self) -> (copy: Self)
        ensures
            copy@ == self@,
    {
        WindowSession {
            window_handle: self.window_handle,
            process_id: self.process_id,
            process_name: self.process_name.clone(),
            window_title: self.window_title.clone(),
            start_time: self.start_time,
            end_time: self.end_time,
            keystrokes: self.keystrokes,
            mouse_clicks: self.mouse_clicks,
            mouse_scrolls: self.mouse_scrolls,
            is_idle: self.is_idle,
        }
    }
}

/// The views of a list of sessions.
pub open spec fn session_views(sessions: Seq<WindowSession>) -> Seq<SessionView> {
    Seq::new(sessions.len(), |i: int| sessions[i]@)
}

impl WindowSession {
    /// A session that begins at `now`.
    pub fn new(
        window_handle: isize,
        process_id: u32,
        process_name: String,
        window_title: String,
        now: Timestamp,
    ) -> (session: WindowSession)
        ensures
            session@ == SessionView::fresh(
                window_handle,
                process_id,
                process_name@,
                window_title@,
                now,
            ),
    {
        WindowSession {
            window_handle,
            process_id,
            process_name,
            window_title,
            start_time: now,
            end_time: None,
            keystrokes: 0,
            mouse_clicks: 0,
            mouse_scrolls: 0,
            is_idle: false,
        }
    }

    /// Ends the session at `now`.
    pub fn finalize(&mut self, now: Timestamp)
        ensures
            final(self)@ == old(self)@.ended_at(now),
    {
        self.end_time = Some(now);
    }

    /// Length of the session in whole seconds, never negative: up to its end,
    /// or up to `now` while it is still current.
    pub fn duration_secs(&self, now: Timestamp) -> (secs: i64)
        ensures
            secs == self@.duration_secs(now),
            secs >= 0,
    {
        match self.end_time {
            Some(end) => end.elapsed_secs_since(&self.start_time),
            None => now.elapsed_secs_since(&self.start_time),
        }
    }

    /// Whether any input was counted in the session.
    pub fn has_activity(&self) -> (active: bool)
        ensures
            active == self@.has_activity(),
    {
        self.keystrokes > 0 || self.mouse_clicks > 0 || self.mouse_scrolls > 0
    }
}

/// Figures of one application, summed over its sessions.
#[derive(Debug)]
pub struct ApplicationStats {
    /// Name of the executable.
    pub process_name: String,
    /// Seconds of focus.
    pub total_focus_duration_secs: u64,
    /// Keystrokes.
    pub total_keystrokes: u64,
    /// Mouse clicks.
    pub total_clicks: u64,
    /// Number of sessions.
    pub session_count: u32,
}

/// What the figures of one application hold.
pub ghost struct AppStatsView {
    pub process_name: Seq<char>,
    pub total_focus_duration_secs: u64,
    pub total_keystrokes: u64,
    pub total_clicks: u64,
    pub session_count: u32,
}

impl AppStatsView {
    /// Figures of an application with no session yet.
    pub open spec fn empty(process_name: Seq<char>) -> AppStatsView {
        AppStatsView {
            process_name,
            total_focus_duration_secs: 0,
            total_keystrokes: 0,
            total_clicks: 0,
            session_count: 0,
        }
    }

    /// The figures with one more session of `secs` seconds: the seconds, the
    /// keystrokes and the clicks added, each sum held at the largest value of
    /// its type.
    pub open spec fn with_session(self, session: SessionView, secs: int) -> AppStatsView {
        AppStatsView {
            process_name: self.process_name,
            total_focus_duration_secs: saturate_u64(self.total_focus_duration_secs + secs),
            total_keystrokes: saturate_u64(self.total_keystrokes + session.keystrokes),
            total_clicks: saturate_u64(self.total_clicks + session.mouse_clicks),
            session_count: saturate_u32(self.session_count + 1),
        }
    }

    /// The figures with the input and the time of a session that is still
    /// current: as `with_session`, but the session is not counted.
    pub open spec fn with_current(self, session: SessionView, secs: int) -> AppStatsView {
        AppStatsView { session_count: self.session_count, ..self.with_session(session, secs) }
    }
}

impl View for ApplicationStats {
    type V = AppStatsView;

    open spec fn view(&self) -> AppStatsView {
        AppStatsView {
            process_name: self.process_name@,
            total_focus_duration_secs: self.total_focus_duration_secs,
            total_keystrokes: self.total_keystrokes,
            total_clicks: self.total_clicks,
            session_count: self.session_count,
        }
    }
}

impl Clone for ApplicationStats {
    fn clone(&self) -> (copy: Self)
        ensures
            copy@ == self@,
    {
        ApplicationStats {
            process_name: self.process_name.clone(),
            total_focus_duration_secs: self.total_focus_duration_secs,
            total_keystrokes: self.total_keystrokes,
            total_clicks: self.total_clicks,
            session_count: self.session_count,
        }
    }
}

/// The views of a list of figures.
pub open spec fn stats_views(stats: Seq<ApplicationStats>) -> Seq<AppStatsView> {
    Seq::new(stats.len(), |i: int| stats[i]@)
}

impl ApplicationStats {
    /// Figures of an application with no session yet.
    pub fn new(process_name: String) -> (stats: ApplicationStats)
        ensures
            stats@ == AppStatsView::empty(process_name@),
    {
        ApplicationStats {
            process_name,
            total_focus_duration_secs: 0,
            total_keystrokes: 0,
            total_clicks: 0,
            session_count: 0,
        }
    }

    /// Adds a session to the figures. The length of a session that has not
    /// ended is taken up to `now`.
    pub fn add_session(&mut self, session: &WindowSession, now: Timestamp)
        ensures
            final(self)@ == old(self)@.with_session(session@, session@.duration_secs(now)),
    {
        let secs: i64 = session.duration_secs(now);
        self.total_focus_duration_secs = self.total_focus_duration_secs.saturating_add(secs as u64);
        self.total_keystrokes = self.total_keystrokes.saturating_add(session.keystrokes);
        self.total_clicks = self.total_clicks.saturating_add(session.mouse_clicks);
        self.session_count = self.session_count.saturating_add(1);
    }

    /// Adds the time and the input of the current session to the figures,
    /// without counting it as a session.
    pub fn add_current(&mut self, session: &WindowSession, now: Timestamp)
        ensures
            final(self)@ == old(self)@.with_current(session@, session@.duration_secs(now)),
    {
        let secs: i64 = session.duration_secs(now);
        self.total_focus_duration_secs = self.total_focus_duration_secs.saturating_add(secs as u64);
        self.total_keystrokes = self.total_keystrokes.saturating_add(session.keystrokes);
        self.total_clicks = self.total_clicks.saturating_add(session.mouse_clicks);
    }
}

/// Totals of the activity the store knows of.
#[derive(Debug, Clone, Copy, PartialEq, Eq, Structural)]
pub struct DailySummary {
    /// Keystrokes.
    pub total_keystrokes: u64,
    /// Mouse clicks.
    pub total_clicks: u64,
    /// Seconds of focus.
    pub total_focus_time_secs: u64,
    /// Number of different applications.
    pub app_count: u32,
    /// Number of sessions.
    pub session_count: u32,
}

impl Default for DailySummary {
    fn default() -> (summary: DailySummary)
        ensures
            summary == (DailySummary {
                total_keystrokes: 0,
                total_clicks: 0,
                total_focus_time_secs: 0,
                app_count: 0,
                session_count: 0,
            }),
    {
        DailySummary {
            total_keystrokes: 0,
            total_clicks: 0,
            total_focus_time_secs: 0,
            app_count: 0,
            session_count: 0,
        }
    }
}

} // verus!
