//! The rules of the polling loop: what one tick does to the store, how a
//! process gets its name, and when the pending sessions are persisted.
//!
//! The loop itself, with its sleep and its calls into the operating system,
//! belongs to the caller: it samples the foreground window and the player,
//! and hands the samples to `poll_cycle`.

use crate::activity_store::{ActivityStore, StoreView};
use crate::counters::{flush_click_counts, flush_keystroke_count, flush_scroll_count, CounterRing};
use crate::media::{MediaInfo, MediaInfoView};
use crate::pattern::{blacklisted, is_blacklisted, BlacklistEntry};
use crate::text::{chars_of, str_eq};
use crate::time::Timestamp;
use crate::types::saturate_u64;
use vstd::prelude::*;
use vstd::string::*;

verus! {

/// Milliseconds between two ticks, unless configured otherwise.
pub const DEFAULT_POLL_INTERVAL_MS: u64 = 100;

/// Number of ticks after which the pending sessions are persisted.
pub const DB_SAVE_INTERVAL: u32 = 50;

/// Largest number of characters of an application name taken from a title.
pub const MAX_APP_NAME_CHARS: usize = 30;

/// Settings of the polling loop.
#[derive(Debug, Clone, Copy, PartialEq, Eq, Structural)]
pub struct PollerConfig {
    /// Milliseconds between two ticks.
    pub poll_interval_ms: u64,
    /// Whether a new title on the same window begins a new session.
    pub track_title_changes: bool,
}

impl Default for PollerConfig {
    fn default() -> (config: PollerConfig)
        ensures
            config == (PollerConfig {
                poll_interval_ms: DEFAULT_POLL_INTERVAL_MS,
                track_title_changes: false,
            }),
    {
        PollerConfig { poll_interval_ms: DEFAULT_POLL_INTERVAL_MS, track_title_changes: false }
    }
}

/// Whether `c` is white space, as Unicode defines it.
pub open spec fn is_space(c: char) -> bool {
    let n = c as u32;
    (0x9 <= n <= 0xD) || n == 0x20 || n == 0x85 || n == 0xA0 || n == 0x1680 || (0x2000 <= n
        <= 0x200A) || n == 0x2028 || n == 0x2029 || n == 0x202F || n == 0x205F || n == 0x3000
}

/// Whether one of the separators ` - `, ` | ` and ` — ` begins at place `i`
/// of `title`.
pub open spec fn separator_at(title: Seq<char>, i: int) -> bool {
    &&& 0 <= i
    &&& i + 2 < title.len()
    &&& title[i] == ' '
    &&& title[i + 2] == ' '
    &&& (title[i + 1] == '-' || title[i + 1] == '|' || title[i + 1] == '\u{2014}')
}

/// Whether `i` is the place of the first separator of `title`, or its length
/// where it has none.
pub open spec fn is_cut(title: Seq<char>, i: int) -> bool {
    &&& 0 <= i <= title.len()
    &&& (i == title.len() || separator_at(title, i))
    &&& forall|k: int| 0 <= k < i ==> !separator_at(title, k)
}

/// The place of the first separator of `title`, or its length.
pub open spec fn cut_point(title: Seq<char>) -> int {
    choose|i: int| is_cut(title, i)
}

/// Whether `a` is the number of white-space characters that `s` begins with.
pub open spec fn is_lead(s: Seq<char>, a: int) -> bool {
    &&& 0 <= a <= s.len()
    &&& (a == s.len() || !is_space(s[a]))
    &&& forall|k: int| 0 <= k < a ==> is_space(s[k])
}

/// Whether, behind the first `a` characters, `b` is the place behind the last
/// character of `s` that is no white space.
pub open spec fn is_tail(s: Seq<char>, a: int, b: int) -> bool {
    &&& a <= b <= s.len()
    &&& (b == a || !is_space(s[b - 1]))
    &&& forall|k: int| b <= k < s.len() ==> is_space(s[k])
}

/// `s` without the white space at its ends.
pub open spec fn trimmed(s: Seq<char>) -> Seq<char> {
    let a = choose|a: int| is_lead(s, a);
    let b = choose|b: int| is_tail(s, a, b);
    s.subrange(a, b)
}

/// `name` cut down to thirty characters: the first twenty-seven and three
/// dots where it is longer.
pub open spec fn shortened(name: Seq<char>) -> Seq<char> {
    if name.len() > MAX_APP_NAME_CHARS {
        name.take(27) + "..."@
    } else {
        name
    }
}

/// The application name in a window title: what stands before the first
/// separator, without white space at its ends, cut down to thirty characters.
pub open spec fn app_name(title: Seq<char>) -> Seq<char> {
    shortened(trimmed(title.take(cut_point(title))))
}

/// The name under which a process is tracked. The host of packaged apps is
/// named after the title of its window, and so is a process whose name could
/// not be read.
pub open spec fn normalized_name(raw: Seq<char>, title: Seq<char>) -> Seq<char> {
    if raw == "ApplicationFrameHost.exe"@ {
        if title.len() > 0 {
            "[UWP] "@ + app_name(title)
        } else {
            "UWP App"@
        }
    } else if raw == "Unknown"@ && title.len() > 0 {
        "[Elevated] "@ + app_name(title)
    } else {
        raw
    }
}

/// There is one first separator.
proof fn lemma_cut_unique(title: Seq<char>, i: int)
    requires
        is_cut(title, i),
    ensures
        cut_point(title) == i,
{
    let c = cut_point(title);
    assert(is_cut(title, c));
    if c < i {
        assert(!separator_at(title, c));
    }
    if i < c {
        assert(!separator_at(title, i));
    }
}

/// There is one way to trim.
proof fn lemma_trim_unique(s: Seq<char>, a: int, b: int)
    requires
        is_lead(s, a),
        is_tail(s, a, b),
    ensures
        trimmed(s) == s.subrange(a, b),
{
    let a2 = choose|a: int| is_lead(s, a);
    assert(is_lead(s, a2));
    if a2 < a {
        assert(is_space(s[a2]));
    }
    if a < a2 {
        assert(is_space(s[a]));
    }
    let b2 = choose|b: int| is_tail(s, a, b);
    assert(is_tail(s, a, b2));
    if b2 < b {
        assert(is_space(s[b - 1]));
    }
    if b < b2 {
        assert(is_space(s[b2 - 1]));
    }
}

/// Tells whether `c` is white space.
fn char_is_space(c: char) -> (space: bool)
    ensures
        space == is_space(c),
{
    let n: u32 = c as u32;
    (0x9 <= n && n <= 0xD) || n == 0x20 || n == 0x85 || n == 0xA0 || n == 0x1680 || (0x2000 <= n
        && n <= 0x200A) || n == 0x2028 || n == 0x2029 || n == 0x202F || n == 0x205F || n == 0x3000
}

/// Finds the first separator of `title`.
fn find_cut(title: &Vec<char>) -> (cut: usize)
    ensures
        is_cut(title@, cut as int),
{
    let n: usize = title.len();
    let mut i: usize = 0;
    while i < n
        invariant
            i <= n,
            n == title@.len(),
            forall|k: int| 0 <= k < i ==> !separator_at(title@, k),
        decreases n - i,
    {
        if n - i >= 3 && title[i] == ' ' && title[i + 2] == ' ' {
            let mid: char = title[i + 1];
            if mid == '-' || mid == '|' || mid == '\u{2014}' {
                return i;
            }
        }
        i += 1;
    }
    n
}

/// Takes the application name out of a window title: what stands before the
/// first of ` - `, ` | ` and ` — `, without white space at its ends, and cut
/// down to thirty characters, the last three of them dots, where it is longer.
pub fn extract_app_name(title: &str) -> (name: String)
    ensures
        name@ == app_name(title@),
        name@.len() <= MAX_APP_NAME_CHARS,
{
    let chars = chars_of(title);
    let cut: usize = find_cut(&chars);
    let ghost head = title@.take(cut as int);
    let mut a: usize = 0;
    while a < cut && char_is_space(chars[a])
        invariant
            a <= cut <= chars@.len(),
            chars@ == title@,
            forall|k: int| 0 <= k < a ==> is_space(chars@[k]),
        decreases cut - a,
    {
        a += 1;
    }
    let mut b: usize = cut;
    while b > a && char_is_space(chars[b - 1])
        invariant
            a <= b <= cut <= chars@.len(),
            chars@ == title@,
            forall|k: int| b <= k < cut ==> is_space(chars@[k]),
        decreases b,
    {
        b -= 1;
    }
    proof {
        lemma_cut_unique(title@, cut as int);
        assert(is_lead(head, a as int));
        assert(is_tail(head, a as int, b as int));
        lemma_trim_unique(head, a as int, b as int);
        assert(head.subrange(a as int, b as int) =~= title@.subrange(a as int, b as int));
        reveal_strlit("...");
    }
    if b - a > MAX_APP_NAME_CHARS {
        let kept = title.substring_char(a, a + 27);
        proof {
            assert(kept@ =~= title@.subrange(a as int, b as int).take(27));
        }
        String::from_str(kept).concat("...")
    } else {
        String::from_str(title.substring_char(a, b))
    }
}

/// Gives a process the name under which it is tracked: the host of packaged
/// apps becomes `[UWP] ` and the application named in the title, or `UWP App`
/// without a title; a process without a readable name becomes `[Elevated] `
/// and the application named in the title; any other keeps its name.
pub fn normalize_process_name(raw_process_name: &str, window_title: &str) -> (name: String)
    ensures
        name@ == normalized_name(raw_process_name@, window_title@),
{
    if str_eq(raw_process_name, "ApplicationFrameHost.exe") {
        if !window_title.is_empty() {
            let app = extract_app_name(window_title);
            String::from_str("[UWP] ").concat(app.as_str())
        } else {
            String::from_str("UWP App")
        }
    } else if str_eq(raw_process_name, "Unknown") && !window_title.is_empty() {
        let app = extract_app_name(window_title);
        String::from_str("[Elevated] ").concat(app.as_str())
    } else {
        String::from_str(raw_process_name)
    }
}

/// The clicks of the three buttons together, held at the largest `u64`.
pub fn total_clicks(left: u64, right: u64, middle: u64) -> (total: u64)
    ensures
        total == saturate_u64(left + right + middle),
{
    left.saturating_add(right).saturating_add(middle)
}

/// The input taken from the counter ring in one flush.
#[derive(Debug, Clone, Copy, PartialEq, Eq, Structural)]
pub struct FlushedInput {
    pub keystrokes: u64,
    pub clicks: u64,
    pub scrolls: u64,
}

/// Takes what the counter ring has gathered and adds it, as an input at
/// `now`, to the store; returns what was taken. The caller holds the write
/// lock of the store while it calls: where it cannot get the lock, it does not
/// call, and the counts stay in the ring.
pub fn flush_counters_to_store(ring: &CounterRing, store: &mut ActivityStore, now: Timestamp) -> (taken: FlushedInput)
    requires
        old(store).wf(),
    ensures
        final(store)@ == old(store)@.with_input(
            now,
            taken.keystrokes,
            taken.clicks,
            taken.scrolls,
        ),
        final(store).wf(),
{
    let keystrokes = flush_keystroke_count(ring);
    let (left, right, middle) = flush_click_counts(ring);
    let scrolls = flush_scroll_count(ring);
    add_flushed_counts(store, now, keystrokes, left, right, middle, scrolls)
}

/// Adds the counts that one flush took from the counter ring to the store, as
/// an input at `now`: the keystrokes, the clicks of the three buttons
/// together, and the scrolls. Returns them as they were added.
pub fn add_flushed_counts(
    store: &mut ActivityStore,
    now: Timestamp,
    keystrokes: u64,
    left: u64,
    right: u64,
    middle: u64,
    scrolls: u64,
) -> (taken: FlushedInput)
    requires
        old(store).wf(),
    ensures
        taken == (FlushedInput {
            keystrokes,
            clicks: saturate_u64(left + right + middle),
            scrolls,
        }),
        final(store)@ == old(store)@.with_input(
            now,
            keystrokes,
            saturate_u64(left + right + middle),
            scrolls,
        ),
        final(store).wf(),
{
    let clicks = total_clicks(left, right, middle);
    store.add_input_counts(now, keystrokes, clicks, scrolls);
    FlushedInput { keystrokes, clicks, scrolls }
}

/// What the poller saw of the foreground window in one tick.
#[derive(Debug)]
pub struct WindowSample {
    /// Handle of the window.
    pub hwnd: isize,
    /// Title of the window.
    pub title: String,
    /// Id of the process that owns the window.
    pub process_id: u32,
    /// Name of the executable, where it could be read.
    pub process_name: Option<String>,
}

/// What the poller remembers from one tick to the next.
#[derive(Debug)]
pub struct PollerState {
    last_hwnd: Option<isize>,
    last_title: String,
    db_save_counter: u32,
}

/// What the state of the poller holds.
pub ghost struct PollerView {
    pub last_hwnd: Option<isize>,
    pub last_title: Seq<char>,
    pub db_save_counter: u32,
}

impl View for PollerState {
    type V = PollerView;

    closed spec fn view(&self) -> PollerView {
        PollerView {
            last_hwnd: self.last_hwnd,
            last_title: self.last_title@,
            db_save_counter: self.db_save_counter,
        }
    }
}

/// How the foreground window differs from that of the tick before.
#[derive(Debug, Clone, Copy, PartialEq, Eq, Structural)]
pub enum FocusChange {
    /// The same window, and the title does not count or is the same.
    Unchanged,
    /// Another window.
    Window,
    /// The same window with another title, where titles are tracked.
    Title,
}

/// What one tick changed in the tracking of the focus.
#[derive(Debug)]
pub enum FocusOutcome {
    /// The focus is where it was.
    Unchanged,
    /// The focus moved to a process that is not tracked.
    Blacklisted,
    /// A session began for the process of this name.
    Switched { process_name: String },
}

impl PollerView {
    /// How a window with the handle `hwnd` and the title `title` differs from
    /// what was seen last.
    pub open spec fn focus_change(self, hwnd: isize, title: Seq<char>, track_title_changes: bool) -> FocusChange {
        if self.last_hwnd != Some(hwnd) {
            FocusChange::Window
        } else if track_title_changes && self.last_title != title {
            FocusChange::Title
        } else {
            FocusChange::Unchanged
        }
    }

    /// The state after a window was seen and found changed.
    pub open spec fn seen(self, hwnd: isize, title: Seq<char>) -> PollerView {
        PollerView { last_hwnd: Some(hwnd), last_title: title, ..self }
    }

    /// The state after one more tick was counted.
    pub open spec fn ticked(self) -> PollerView {
        if self.db_save_counter + 1 >= DB_SAVE_INTERVAL {
            PollerView { db_save_counter: 0, ..self }
        } else {
            PollerView { db_save_counter: (self.db_save_counter + 1) as u32, ..self }
        }
    }
}

/// The name a process has before it is normalized: the one that was read, or
/// `Unknown`.
pub open spec fn raw_name(process_name: Option<String>) -> Seq<char> {
    match process_name {
        Some(name) => name@,
        None => "Unknown"@,
    }
}

/// The store after the focus was found on the window of `sample` at `now`:
/// unchanged where the process is blacklisted, else switched to a session of
/// the normalized name.
pub open spec fn focus_applied(
    store: StoreView,
    sample: WindowSample,
    blacklist: Seq<BlacklistEntry>,
    now: Timestamp,
) -> StoreView {
    if blacklisted(blacklist, raw_name(sample.process_name)) {
        store
    } else {
        store.switched(
            now,
            sample.hwnd,
            sample.process_id,
            normalized_name(raw_name(sample.process_name), sample.title@),
            sample.title@,
        )
    }
}

/// The store after one tick at `now`: the input is added, the player is taken
/// note of, and the focus is followed.
pub open spec fn polled(
    store: StoreView,
    poller: PollerView,
    taken: FlushedInput,
    media: Option<MediaInfoView>,
    window: Option<WindowSample>,
    blacklist: Seq<BlacklistEntry>,
    track_title_changes: bool,
    now: Timestamp,
) -> StoreView {
    let fed = store.with_input(now, taken.keystrokes, taken.clicks, taken.scrolls);
    let heard = match media {
        Some(info) => fed.media_updated(info, now),
        None => fed,
    };
    match window {
        Some(sample) => if poller.focus_change(sample.hwnd, sample.title@, track_title_changes)
            == FocusChange::Unchanged {
            heard
        } else {
            focus_applied(heard, sample, blacklist, now)
        },
        None => heard,
    }
}

impl PollerState {
    /// The state before the first tick: no window seen yet.
    pub fn new() -> (state: PollerState)
        ensures
            state@ == (PollerView {
                last_hwnd: None,
                last_title: Seq::empty(),
                db_save_counter: 0,
            }),
    {
        PollerState { last_hwnd: None, last_title: String::new(), db_save_counter: 0 }
    }

    /// Tells how the window now in the foreground differs from the one seen
    /// last: another window, or, where titles are tracked, another title.
    pub fn focus_change(&self, hwnd: isize, title: &str, track_title_changes: bool) -> (change: FocusChange)
        ensures
            change == self@.focus_change(hwnd, title@, track_title_changes),
    {
        let same_window: bool = match self.last_hwnd {
            Some(last) => last == hwnd,
            None => false,
        };
        if !same_window {
            FocusChange::Window
        } else if track_title_changes && !str_eq(self.last_title.as_str(), title) {
            FocusChange::Title
        } else {
            FocusChange::Unchanged
        }
    }

    /// Counts one tick and tells whether the pending sessions are to be
    /// persisted now: every fiftieth tick.
    pub fn save_due(&mut self) -> (due: bool)
        ensures
            final(self)@ == old(self)@.ticked(),
            due == (old(self)@.db_save_counter + 1 >= DB_SAVE_INTERVAL),
    {
        if self.db_save_counter >= DB_SAVE_INTERVAL - 1 {
            self.db_save_counter = 0;
            true
        } else {
            self.db_save_counter = self.db_save_counter + 1;
            false
        }
    }
}

/// Follows the focus to the window of `sample`, which differs from the one
/// seen last. A blacklisted process leaves the store as it is; any other
/// begins a session under its normalized name. The window is remembered
/// either way.
pub fn apply_focus(
    poller: &mut PollerState,
    store: &mut ActivityStore,
    sample: &WindowSample,
    blacklist: &Vec<BlacklistEntry>,
    now: Timestamp,
) -> (outcome: FocusOutcome)
    requires
        old(store).wf(),
    ensures
        final(store)@ == focus_applied(old(store)@, *sample, blacklist@, now),
        final(store).wf(),
        final(poller)@ == old(poller)@.seen(sample.hwnd, sample.title@),
        tells_of(outcome, *sample, blacklist@),
{
    let raw: &str = match &sample.process_name {
        Some(name) => name.as_str(),
        None => "Unknown",
    };
    poller.last_hwnd = Some(sample.hwnd);
    poller.last_title = sample.title.clone();
    if is_blacklisted(blacklist, raw) {
        return FocusOutcome::Blacklisted;
    }
    let process_name = normalize_process_name(raw, sample.title.as_str());
    store.switch_session(
        now,
        sample.hwnd,
        sample.process_id,
        process_name.as_str(),
        sample.title.as_str(),
    );
    FocusOutcome::Switched { process_name }
}

/// Whether `outcome` tells what became of the focus on the window of
/// `sample`, which differs from the one seen last.
pub open spec fn tells_of(outcome: FocusOutcome, sample: WindowSample, blacklist: Seq<BlacklistEntry>) -> bool {
    match outcome {
        FocusOutcome::Unchanged => false,
        FocusOutcome::Blacklisted => blacklisted(blacklist, raw_name(sample.process_name)),
        FocusOutcome::Switched { process_name } => !blacklisted(
            blacklist,
            raw_name(sample.process_name),
        ) && process_name@ == normalized_name(raw_name(sample.process_name), sample.title@),
    }
}

/// What one tick did.
#[derive(Debug)]
pub struct PollOutcome {
    /// The input that was taken from the counter ring.
    pub taken: FlushedInput,
    /// What became of the focus.
    pub focus: FocusOutcome,
}

/// Does the work of one tick at `now`, after the idle check: takes the input
/// from the counter ring into the store, takes note of the player, and
/// follows the focus to the window in the foreground. Without a foreground
/// window the focus stays where it was.
pub fn poll_cycle(
    poller: &mut PollerState,
    store: &mut ActivityStore,
    ring: &CounterRing,
    media: Option<MediaInfo>,
    window: Option<WindowSample>,
    blacklist: &Vec<BlacklistEntry>,
    track_title_changes: bool,
    now: Timestamp,
) -> (outcome: PollOutcome)
    requires
        old(store).wf(),
    ensures
        final(store)@ == polled(
            old(store)@,
            old(poller)@,
            outcome.taken,
            match media {
                Some(info) => Some(info@),
                None => None,
            },
            window,
            blacklist@,
            track_title_changes,
            now,
        ),
        final(store).wf(),
        final(poller)@ == match window {
            Some(sample) => if old(poller)@.focus_change(
                sample.hwnd,
                sample.title@,
                track_title_changes,
            ) == FocusChange::Unchanged {
                old(poller)@
            } else {
                old(poller)@.seen(sample.hwnd, sample.title@)
            },
            None => old(poller)@,
        },
        match window {
            Some(sample) => if old(poller)@.focus_change(
                sample.hwnd,
                sample.title@,
                track_title_changes,
            ) == FocusChange::Unchanged {
                outcome.focus is Unchanged
            } else {
                tells_of(outcome.focus, sample, blacklist@)
            },
            None => outcome.focus is Unchanged,
        },
{
    let taken = flush_counters_to_store(ring, store, now);
    if let Some(info) = media {
        store.update_media(info, now);
    }
    let focus = match window {
        Some(sample) => {
            let change = poller.focus_change(
                sample.hwnd,
                sample.title.as_str(),
                track_title_changes,
            );
            if change == FocusChange::Unchanged {
                FocusOutcome::Unchanged
            } else {
                apply_focus(poller, store, &sample, blacklist, now)
            }
        },
        None => FocusOutcome::Unchanged,
    };
    PollOutcome { taken, focus }
}

/// Watches for the end of a day, so that the day can be committed at the
/// first idle moment after midnight.
#[derive(Debug)]
pub struct DayWatch {
    current_day: String,
    ended_day: Option<String>,
}

/// What a `DayWatch` holds: the day that was seen last, and the latest day
/// that has ended and is not committed yet.
pub ghost struct DayWatchView {
    pub current_day: Seq<char>,
    pub ended_day: Option<Seq<char>>,
}

impl View for DayWatch {
    type V = DayWatchView;

    closed spec fn view(&self) -> DayWatchView {
        DayWatchView {
            current_day: self.current_day@,
            ended_day: match self.ended_day {
                Some(d) => Some(d@),
                None => None,
            },
        }
    }
}

impl DayWatchView {
    /// The day that waits to be committed once `today` is seen: the day seen
    /// before where it differs from `today`, else the one that waited.
    pub open spec fn waiting(self, today: Seq<char>) -> Option<Seq<char>> {
        if today != self.current_day {
            Some(self.current_day)
        } else {
            self.ended_day
        }
    }

    /// The day to commit when `today` is seen and the user is idle or not.
    pub open spec fn due(self, today: Seq<char>, idle: bool) -> Option<Seq<char>> {
        if idle {
            self.waiting(today)
        } else {
            None
        }
    }

    /// The watch after `today` was seen.
    pub open spec fn observed(self, today: Seq<char>, idle: bool) -> DayWatchView {
        DayWatchView {
            current_day: today,
            ended_day: if idle {
                None
            } else {
                self.waiting(today)
            },
        }
    }
}

impl DayWatch {
    /// A watch that begins on the day `today`, with no day waiting.
    pub fn new(today: &str) -> (watch: DayWatch)
        ensures
            watch@ == (DayWatchView { current_day: today@, ended_day: None }),
    {
        DayWatch { current_day: String::from_str(today), ended_day: None }
    }

    /// Takes note of the date of a tick and of whether the user is idle at
    /// it. A day that has ended waits until the user is idle, and is then
    /// handed out, once, to be committed.
    pub fn observe(&mut self, today: &str, idle: bool) -> (due: Option<String>)
        ensures
            final(self)@ == old(self)@.observed(today@, idle),
            match due {
                Some(day) => old(self)@.due(today@, idle) == Some(day@),
                None => old(self)@.due(today@, idle) is None,
            },
    {
        if !str_eq(self.current_day.as_str(), today) {
            let mut ended = String::from_str(today);
            core::mem::swap(&mut self.current_day, &mut ended);
            self.ended_day = Some(ended);
        }
        if idle {
            self.ended_day.take()
        } else {
            None
        }
    }
}

} // verus!
