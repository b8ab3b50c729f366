//! Figures per application, computed from lists of sessions.

use crate::text::str_eq;
use crate::time::Timestamp;
use crate::types::{
    saturate_u32, saturate_u64, session_views, stats_views, AppStatsView, ApplicationStats,
    DailySummary, SessionView, WindowSession,
};
use vstd::prelude::*;

verus! {

/// No two entries are of the same application.
pub open spec fn distinct_names(stats: Seq<AppStatsView>) -> bool {
    forall|i: int, j: int|
        0 <= i < stats.len() && 0 <= j < stats.len() && i != j ==> (#[trigger] stats[i]).process_name
            != (#[trigger] stats[j]).process_name
}

/// Whether `stats` has an entry for the application `name`.
pub open spec fn has_app(stats: Seq<AppStatsView>, name: Seq<char>) -> bool {
    exists|i: int| 0 <= i < stats.len() && (#[trigger] stats[i]).process_name == name
}

/// Whether the entry at place `i` of `stats` is the first one for the
/// application `name`.
pub open spec fn is_first_entry(stats: Seq<AppStatsView>, name: Seq<char>, i: int) -> bool {
    &&& 0 <= i < stats.len()
    &&& stats[i].process_name == name
    &&& forall|j: int| 0 <= j < i ==> (#[trigger] stats[j]).process_name != name
}

/// The place of the first entry for `name`, where there is one.
pub open spec fn app_index(stats: Seq<AppStatsView>, name: Seq<char>) -> int {
    choose|i: int| is_first_entry(stats, name, i)
}

/// There is one first entry.
proof fn lemma_first_entry_unique(stats: Seq<AppStatsView>, name: Seq<char>, i: int)
    requires
        is_first_entry(stats, name, i),
    ensures
        app_index(stats, name) == i,
{
    let k = app_index(stats, name);
    assert(is_first_entry(stats, name, k));
    if k < i {
        assert(stats[k].process_name != name);
    }
    if i < k {
        assert(stats[i].process_name != name);
    }
}

/// Among distinct names, the entry for a name is the first one for it.
proof fn lemma_entry_among_distinct(stats: Seq<AppStatsView>, name: Seq<char>)
    requires
        distinct_names(stats),
        has_app(stats, name),
    ensures
        is_first_entry(stats, name, app_index(stats, name)),
{
    let w = choose|i: int| 0 <= i < stats.len() && (#[trigger] stats[i]).process_name == name;
    assert forall|j: int| 0 <= j < w implies (#[trigger] stats[j]).process_name != name by {
        assert(stats[j].process_name != stats[w].process_name);
    }
    assert(is_first_entry(stats, name, w));
}

/// The figures with one more session of `secs` seconds: added to the first
/// entry of its application, or to a new entry at the end where it has none
/// yet.
pub open spec fn accumulated(stats: Seq<AppStatsView>, session: SessionView, secs: int) -> Seq<
    AppStatsView,
> {
    if has_app(stats, session.process_name) {
        let i = app_index(stats, session.process_name);
        stats.update(i, stats[i].with_session(session, secs))
    } else {
        stats.push(AppStatsView::empty(session.process_name).with_session(session, secs))
    }
}

/// The figures with the time and the input of a session that is still
/// current: as `accumulated`, but the session is not counted.
pub open spec fn accumulated_current(stats: Seq<AppStatsView>, session: SessionView, secs: int) -> Seq<
    AppStatsView,
> {
    if has_app(stats, session.process_name) {
        let i = app_index(stats, session.process_name);
        stats.update(i, stats[i].with_current(session, secs))
    } else {
        stats.push(AppStatsView::empty(session.process_name).with_current(session, secs))
    }
}

/// The sum of `pick` over the entries of `stats`.
pub open spec fn total_of(stats: Seq<AppStatsView>, pick: spec_fn(AppStatsView) -> int) -> int
    decreases stats.len(),
{
    if stats.len() == 0 {
        0
    } else {
        total_of(stats.drop_last(), pick) + pick(stats.last())
    }
}

/// The figures of a list of sessions: one entry for each application, in the
/// order in which the applications first occur; a session without an end is
/// counted up to `now`.
pub open spec fn app_stats_of(sessions: Seq<SessionView>, now: Timestamp) -> Seq<AppStatsView>
    decreases sessions.len(),
{
    if sessions.len() == 0 {
        Seq::empty()
    } else {
        accumulated(
            app_stats_of(sessions.drop_last(), now),
            sessions.last(),
            sessions.last().duration_secs(now),
        )
    }
}

/// Adding a session keeps the applications distinct.
pub proof fn lemma_accumulated_distinct(stats: Seq<AppStatsView>, session: SessionView, secs: int)
    requires
        distinct_names(stats),
    ensures
        distinct_names(accumulated(stats, session, secs)),
        stats.len() <= accumulated(stats, session, secs).len() <= stats.len() + 1,
{
    let after = accumulated(stats, session, secs);
    if has_app(stats, session.process_name) {
        lemma_entry_among_distinct(stats, session.process_name);
        let i = app_index(stats, session.process_name);
        assert forall|a: int, b: int| 0 <= a < after.len() && 0 <= b < after.len() && a != b implies (
        #[trigger] after[a]).process_name != (#[trigger] after[b]).process_name by {
            assert(after[a].process_name == stats[a].process_name);
            assert(after[b].process_name == stats[b].process_name);
        }
    } else {
        assert forall|a: int, b: int| 0 <= a < after.len() && 0 <= b < after.len() && a != b implies (
        #[trigger] after[a]).process_name != (#[trigger] after[b]).process_name by {
            if a < stats.len() {
                assert(after[a] == stats[a]);
            }
            if b < stats.len() {
                assert(after[b] == stats[b]);
            }
        }
    }
}

/// The figures of a list of sessions name no application twice.
pub proof fn lemma_app_stats_distinct(sessions: Seq<SessionView>, now: Timestamp)
    ensures
        distinct_names(app_stats_of(sessions, now)),
        app_stats_of(sessions, now).len() <= sessions.len(),
    decreases sessions.len(),
{
    if sessions.len() > 0 {
        lemma_app_stats_distinct(sessions.drop_last(), now);
        lemma_accumulated_distinct(
            app_stats_of(sessions.drop_last(), now),
            sessions.last(),
            sessions.last().duration_secs(now),
        );
        let before = app_stats_of(sessions.drop_last(), now);
        if !has_app(before, sessions.last().process_name) {
            assert(app_stats_of(sessions, now).len() == before.len() + 1);
        }
    }
}

/// The place of the entry for `name` in `stats`, or `None` where it has none.
pub fn find_app(stats: &Vec<ApplicationStats>, name: &str) -> (found: Option<usize>)
    ensures
        match found {
            Some(i) => i < stats@.len() && stats@[i as int]@.process_name == name@ && forall|j: int|
                0 <= j < i ==> (#[trigger] stats@[j])@.process_name != name@,
            None => !has_app(stats_views(stats@), name@),
        },
{
    let mut i: usize = 0;
    while i < stats.len()
        invariant
            i <= stats@.len(),
            forall|j: int| 0 <= j < i ==> (#[trigger] stats@[j])@.process_name != name@,
        decreases stats@.len() - i,
    {
        if str_eq(stats[i].process_name.as_str(), name) {
            return Some(i);
        }
        i += 1;
    }
    assert forall|j: int| 0 <= j < stats_views(stats@).len() implies (#[trigger] stats_views(
        stats@,
    )[j]).process_name != name@ by {
        assert(stats_views(stats@)[j] == stats@[j]@);
    }
    None
}

/// Adds `session` to the figures of its application in `stats`: to the first
/// entry of that application, or to a new entry at the end where it has none
/// yet. Where no application had two entries before, none has after.
pub fn accumulate(stats: &mut Vec<ApplicationStats>, session: &WindowSession, now: Timestamp)
    ensures
        stats_views(final(stats)@) == accumulated(
            stats_views(old(stats)@),
            session@,
            session@.duration_secs(now),
        ),
        distinct_names(stats_views(old(stats)@)) ==> distinct_names(stats_views(final(stats)@)),
{
    let ghost before = stats_views(stats@);
    let ghost secs = session@.duration_secs(now);
    proof {
        if distinct_names(before) {
            lemma_accumulated_distinct(before, session@, secs);
        }
    }
    match find_app(stats, session.process_name.as_str()) {
        Some(i) => {
            let mut entry = stats[i].clone();
            entry.add_session(session, now);
            stats.set(i, entry);
            proof {
                assert(before[i as int].process_name == session@.process_name);
                assert(has_app(before, session@.process_name));
                assert forall|j: int| 0 <= j < i implies (#[trigger] before[j]).process_name
                    != session@.process_name by {
                    assert(before[j] == old(stats)@[j]@);
                }
                lemma_first_entry_unique(before, session@.process_name, i as int);
                assert(stats_views(stats@) =~= accumulated(before, session@, secs));
            }
        },
        None => {
            let mut entry = ApplicationStats::new(session.process_name.clone());
            entry.add_session(session, now);
            stats.push(entry);
            proof {
                assert(stats_views(stats@) =~= accumulated(before, session@, secs));
            }
        },
    }
}

/// Adds the time and the input of the current session `session` to the
/// figures of its application in `stats`, without counting it as a session.
pub fn accumulate_current(stats: &mut Vec<ApplicationStats>, session: &WindowSession, now: Timestamp)
    ensures
        stats_views(final(stats)@) == accumulated_current(
            stats_views(old(stats)@),
            session@,
            session@.duration_secs(now),
        ),
        distinct_names(stats_views(old(stats)@)) ==> distinct_names(stats_views(final(stats)@)),
{
    let ghost before = stats_views(stats@);
    let ghost secs = session@.duration_secs(now);
    match find_app(stats, session.process_name.as_str()) {
        Some(i) => {
            let mut entry = stats[i].clone();
            entry.add_current(session, now);
            stats.set(i, entry);
            proof {
                assert(before[i as int].process_name == session@.process_name);
                assert(has_app(before, session@.process_name));
                assert forall|j: int| 0 <= j < i implies (#[trigger] before[j]).process_name
                    != session@.process_name by {
                    assert(before[j] == old(stats)@[j]@);
                }
                lemma_first_entry_unique(before, session@.process_name, i as int);
                let after = stats_views(stats@);
                assert(after =~= accumulated_current(before, session@, secs));
                if distinct_names(before) {
                    assert forall|a: int, b: int|
                        0 <= a < after.len() && 0 <= b < after.len() && a != b implies (
                    #[trigger] after[a]).process_name != (#[trigger] after[b]).process_name by {
                        assert(after[a].process_name == before[a].process_name);
                        assert(after[b].process_name == before[b].process_name);
                    }
                }
            }
        },
        None => {
            let mut entry = ApplicationStats::new(session.process_name.clone());
            entry.add_current(session, now);
            stats.push(entry);
            proof {
                let after = stats_views(stats@);
                assert(after =~= accumulated_current(before, session@, secs));
                if distinct_names(before) {
                    assert forall|a: int, b: int|
                        0 <= a < after.len() && 0 <= b < after.len() && a != b implies (
                    #[trigger] after[a]).process_name != (#[trigger] after[b]).process_name by {
                        if a < before.len() {
                            assert(after[a] == before[a]);
                        }
                        if b < before.len() {
                            assert(after[b] == before[b]);
                        }
                    }
                }
            }
        },
    }
}

/// Computes the figures of each application in `sessions`: one entry for each
/// application, in the order in which the applications first occur. A session
/// without an end is counted up to `now`.
pub fn compute_app_stats(sessions: &[WindowSession], now: Timestamp) -> (stats: Vec<ApplicationStats>)
    ensures
        stats_views(stats@) == app_stats_of(session_views(sessions@), now),
        distinct_names(stats_views(stats@)),
{
    let mut stats: Vec<ApplicationStats> = Vec::new();
    let mut i: usize = 0;
    assert(session_views(sessions@).take(0) =~= Seq::<SessionView>::empty());
    assert(stats_views(stats@) =~= Seq::<AppStatsView>::empty());
    while i < sessions.len()
        invariant
            i <= sessions@.len(),
            stats_views(stats@) == app_stats_of(session_views(sessions@).take(i as int), now),
            distinct_names(stats_views(stats@)),
        decreases sessions@.len() - i,
    {
        accumulate(&mut stats, &sessions[i], now);
        proof {
            let all = session_views(sessions@);
            assert(all.take(i + 1).drop_last() =~= all.take(i as int));
            assert(all.take(i + 1).last() == sessions@[i as int]@);
        }
        i += 1;
    }
    assert(session_views(sessions@).take(i as int) =~= session_views(sessions@));
    stats
}

/// The figure by which applications are ranked.
#[derive(Debug, Clone, Copy, PartialEq, Eq, Structural)]
pub enum StatsOrder {
    /// Seconds of focus.
    FocusTime,
    /// Keystrokes.
    Keystrokes,
}

/// The figure of `stats` that counts in the order `order`.
pub open spec fn rank(stats: AppStatsView, order: StatsOrder) -> u64 {
    match order {
        StatsOrder::FocusTime => stats.total_focus_duration_secs,
        StatsOrder::Keystrokes => stats.total_keystrokes,
    }
}

/// The entries stand from the largest figure down.
pub open spec fn descending(stats: Seq<AppStatsView>, order: StatsOrder) -> bool {
    forall|i: int, j: int|
        0 <= i < j < stats.len() ==> rank(#[trigger] stats[i], order) >= rank(
            #[trigger] stats[j],
            order,
        )
}

/// Whether `p` is the place behind the entries of `sorted` whose figure is
/// `value` or more.
pub open spec fn is_slot(sorted: Seq<AppStatsView>, value: u64, order: StatsOrder, p: int) -> bool {
    &&& 0 <= p <= sorted.len()
    &&& forall|i: int| 0 <= i < p ==> rank(#[trigger] sorted[i], order) >= value
    &&& (p == sorted.len() || rank(sorted[p], order) < value)
}

/// The place behind the entries of `sorted` whose figure is `value` or more.
pub open spec fn slot(sorted: Seq<AppStatsView>, value: u64, order: StatsOrder) -> int {
    choose|p: int| is_slot(sorted, value, order, p)
}

/// `sorted` with `entry` put behind the entries whose figure is as large as
/// its own or larger.
pub open spec fn placed(sorted: Seq<AppStatsView>, entry: AppStatsView, order: StatsOrder) -> Seq<
    AppStatsView,
> {
    sorted.insert(slot(sorted, rank(entry, order), order), entry)
}

/// The entries of `stats` from the largest figure down; entries with the same
/// figure keep their order.
pub open spec fn ranked(stats: Seq<AppStatsView>, order: StatsOrder) -> Seq<AppStatsView>
    decreases stats.len(),
{
    if stats.len() == 0 {
        Seq::empty()
    } else {
        placed(ranked(stats.drop_last(), order), stats.last(), order)
    }
}

/// The first `n` entries of `stats`, or all of them where there are no more.
pub open spec fn first_n(stats: Seq<AppStatsView>, n: nat) -> Seq<AppStatsView> {
    if n < stats.len() {
        stats.take(n as int)
    } else {
        stats
    }
}

/// There is one slot.
proof fn lemma_slot_unique(sorted: Seq<AppStatsView>, value: u64, order: StatsOrder, p: int)
    requires
        is_slot(sorted, value, order, p),
    ensures
        slot(sorted, value, order) == p,
{
    let q = slot(sorted, value, order);
    assert(is_slot(sorted, value, order, q));
    if q < p {
        assert(rank(sorted[q], order) >= value);
    }
    if p < q {
        assert(rank(sorted[p], order) >= value);
    }
}

/// Every list has a slot for every figure.
proof fn lemma_slot_exists(sorted: Seq<AppStatsView>, value: u64, order: StatsOrder, upto: int) -> (p: int)
    requires
        0 <= upto <= sorted.len(),
        forall|i: int| 0 <= i < upto ==> rank(#[trigger] sorted[i], order) >= value,
    ensures
        is_slot(sorted, value, order, p),
    decreases sorted.len() - upto,
{
    if upto == sorted.len() || rank(sorted[upto], order) < value {
        upto
    } else {
        lemma_slot_exists(sorted, value, order, upto + 1)
    }
}

/// Putting an entry into a descending list gives a descending list.
proof fn lemma_placed_descending(sorted: Seq<AppStatsView>, entry: AppStatsView, order: StatsOrder)
    requires
        descending(sorted, order),
    ensures
        descending(placed(sorted, entry, order), order),
        placed(sorted, entry, order).len() == sorted.len() + 1,
{
    let value = rank(entry, order);
    let found = lemma_slot_exists(sorted, value, order, 0);
    lemma_slot_unique(sorted, value, order, found);
    let p = slot(sorted, value, order);
    let after = placed(sorted, entry, order);
    assert forall|i: int, j: int| 0 <= i < j < after.len() implies rank(
        #[trigger] after[i],
        order,
    ) >= rank(#[trigger] after[j], order) by {
        if j < p {
            assert(after[i] == sorted[i] && after[j] == sorted[j]);
        } else if j == p {
            assert(after[i] == sorted[i]);
        } else if i < p {
            assert(after[i] == sorted[i] && after[j] == sorted[j - 1]);
        } else if i == p {
            assert(after[j] == sorted[j - 1]);
            if p < j - 1 {
                assert(rank(sorted[p], order) >= rank(sorted[j - 1], order));
            }
        } else {
            assert(after[i] == sorted[i - 1] && after[j] == sorted[j - 1]);
        }
    }
}

/// The ranked list stands from the largest figure down and has as many
/// entries as the list it was made from.
pub proof fn lemma_ranked_descending(stats: Seq<AppStatsView>, order: StatsOrder)
    ensures
        descending(ranked(stats, order), order),
        ranked(stats, order).len() == stats.len(),
    decreases stats.len(),
{
    if stats.len() > 0 {
        lemma_ranked_descending(stats.drop_last(), order);
        lemma_placed_descending(ranked(stats.drop_last(), order), stats.last(), order);
    }
}

/// The figure of `stats` that counts in the order `order`.
fn rank_of(stats: &ApplicationStats, order: StatsOrder) -> (value: u64)
    ensures
        value == rank(stats@, order),
{
    match order {
        StatsOrder::FocusTime => stats.total_focus_duration_secs,
        StatsOrder::Keystrokes => stats.total_keystrokes,
    }
}

/// Ranks the entries of `stats` from the largest figure down; entries with
/// the same figure keep their order.
pub fn rank_stats(stats: &Vec<ApplicationStats>, order: StatsOrder) -> (sorted: Vec<ApplicationStats>)
    ensures
        stats_views(sorted@) == ranked(stats_views(stats@), order),
        descending(stats_views(sorted@), order),
        sorted@.len() == stats@.len(),
{
    let ghost all = stats_views(stats@);
    let mut sorted: Vec<ApplicationStats> = Vec::new();
    let mut i: usize = 0;
    assert(all.take(0) =~= Seq::<AppStatsView>::empty());
    assert(stats_views(sorted@) =~= Seq::<AppStatsView>::empty());
    while i < stats.len()
        invariant
            i <= stats@.len(),
            all == stats_views(stats@),
            stats_views(sorted@) == ranked(all.take(i as int), order),
            sorted@.len() == i,
        decreases stats@.len() - i,
    {
        let value: u64 = rank_of(&stats[i], order);
        let mut p: usize = 0;
        while p < sorted.len() && rank_of(&sorted[p], order) >= value
            invariant
                p <= sorted@.len(),
                forall|k: int|
                    0 <= k < p ==> rank(#[trigger] stats_views(sorted@)[k], order) >= value,
            decreases sorted@.len() - p,
        {
            p += 1;
        }
        let ghost before = stats_views(sorted@);
        proof {
            assert(p < sorted@.len() ==> before[p as int] == sorted@[p as int]@);
            lemma_slot_unique(before, value, order, p as int);
            assert(all.take(i + 1).drop_last() =~= all.take(i as int));
            assert(all.take(i + 1).last() == stats@[i as int]@);
        }
        sorted.insert(p, stats[i].clone());
        proof {
            assert(stats_views(sorted@) =~= before.insert(p as int, stats@[i as int]@));
        }
        i += 1;
    }
    proof {
        assert(all.take(i as int) =~= all);
        lemma_ranked_descending(all, order);
    }
    sorted
}

/// The first `n` of `stats`.
fn keep_first(stats: Vec<ApplicationStats>, n: usize) -> (kept: Vec<ApplicationStats>)
    ensures
        stats_views(kept@) == first_n(stats_views(stats@), n as nat),
{
    let mut kept = stats;
    if n < kept.len() {
        kept.truncate(n);
        assert(stats_views(kept@) =~= stats_views(stats@).take(n as int));
    }
    kept
}

/// The `n` applications of `sessions` with the most seconds of focus, the
/// first of them first.
pub fn top_apps_by_focus_time(sessions: &[WindowSession], n: usize, now: Timestamp) -> (top: Vec<
    ApplicationStats,
>)
    ensures
        stats_views(top@) == first_n(
            ranked(app_stats_of(session_views(sessions@), now), StatsOrder::FocusTime),
            n as nat,
        ),
{
    let stats = compute_app_stats(sessions, now);
    keep_first(rank_stats(&stats, StatsOrder::FocusTime), n)
}

/// The `n` applications of `sessions` with the most keystrokes, the first of
/// them first.
pub fn top_apps_by_keystrokes(sessions: &[WindowSession], n: usize, now: Timestamp) -> (top: Vec<
    ApplicationStats,
>)
    ensures
        stats_views(top@) == first_n(
            ranked(app_stats_of(session_views(sessions@), now), StatsOrder::Keystrokes),
            n as nat,
        ),
{
    let stats = compute_app_stats(sessions, now);
    keep_first(rank_stats(&stats, StatsOrder::Keystrokes), n)
}

/// The entry of `stats` for the application `name`, if it has one.
pub fn stats_for<'a>(stats: &'a Vec<ApplicationStats>, name: &str) -> (entry: Option<
    &'a ApplicationStats,
>)
    ensures
        match entry {
            Some(e) => e@.process_name == name@ && exists|i: int|
                0 <= i < stats@.len() && stats@[i] == *e,
            None => !has_app(stats_views(stats@), name@),
        },
{
    match find_app(stats, name) {
        Some(i) => Some(&stats[i]),
        None => None,
    }
}

/// The sessions of `sessions` that began at `start` or later and before
/// `end`, in their order.
pub open spec fn in_range(sessions: Seq<SessionView>, start: Timestamp, end: Timestamp) -> Seq<
    SessionView,
>
    decreases sessions.len(),
{
    if sessions.len() == 0 {
        Seq::empty()
    } else {
        let rest = in_range(sessions.drop_last(), start, end);
        let at = sessions.last().start_time.nanos_since_epoch();
        if start.nanos_since_epoch() <= at < end.nanos_since_epoch() {
            rest.push(sessions.last())
        } else {
            rest
        }
    }
}

/// The sum of `pick` over `sessions`.
pub open spec fn session_total(sessions: Seq<SessionView>, pick: spec_fn(SessionView) -> int) -> int
    decreases sessions.len(),
{
    if sessions.len() == 0 {
        0
    } else {
        session_total(sessions.drop_last(), pick) + pick(sessions.last())
    }
}

/// The totals of `sessions` at `now`, each sum held at the largest value of
/// its type.
pub open spec fn summary_of(sessions: Seq<SessionView>, now: Timestamp) -> DailySummary {
    DailySummary {
        total_keystrokes: saturate_u64(
            session_total(sessions, |s: SessionView| s.keystrokes as int),
        ),
        total_clicks: saturate_u64(session_total(sessions, |s: SessionView| s.mouse_clicks as int)),
        total_focus_time_secs: saturate_u64(
            session_total(sessions, |s: SessionView| s.duration_secs(now)),
        ),
        app_count: saturate_u32(app_stats_of(sessions, now).len() as int),
        session_count: saturate_u32(sessions.len() as int),
    }
}

/// The sessions of `sessions` that began at `start` or later and before `end`.
fn sessions_in_range(sessions: &[WindowSession], start: Timestamp, end: Timestamp) -> (chosen: Vec<
    WindowSession,
>)
    ensures
        session_views(chosen@) == in_range(session_views(sessions@), start, end),
{
    let ghost all = session_views(sessions@);
    let mut chosen: Vec<WindowSession> = Vec::new();
    let mut i: usize = 0;
    assert(all.take(0) =~= Seq::<SessionView>::empty());
    assert(session_views(chosen@) =~= Seq::<SessionView>::empty());
    while i < sessions.len()
        invariant
            i <= sessions@.len(),
            all == session_views(sessions@),
            session_views(chosen@) == in_range(all.take(i as int), start, end),
        decreases sessions@.len() - i,
    {
        proof {
            assert(all.take(i + 1).drop_last() =~= all.take(i as int));
            assert(all.take(i + 1).last() == sessions@[i as int]@);
        }
        let at = sessions[i].start_time;
        if !at.is_before(&start) && at.is_before(&end) {
            let ghost before = session_views(chosen@);
            chosen.push(sessions[i].clone());
            assert(session_views(chosen@) =~= before.push(sessions@[i as int]@));
        }
        i += 1;
    }
    assert(all.take(i as int) =~= all);
    chosen
}

/// Sums up the sessions of `sessions` that began at `start` or later and
/// before `end`. A session without an end is counted up to `now`.
pub fn compute_stats_for_range(
    sessions: &[WindowSession],
    start: Timestamp,
    end: Timestamp,
    now: Timestamp,
) -> (summary: DailySummary)
    ensures
        summary == summary_of(in_range(session_views(sessions@), start, end), now),
{
    let chosen = sessions_in_range(sessions, start, end);
    let stats = compute_app_stats(chosen.as_slice(), now);
    let ghost views = session_views(chosen@);
    let ghost keys = |s: SessionView| s.keystrokes as int;
    let ghost clicks = |s: SessionView| s.mouse_clicks as int;
    let ghost focus = |s: SessionView| s.duration_secs(now);
    let mut total_keystrokes: u64 = 0;
    let mut total_clicks: u64 = 0;
    let mut total_focus_time_secs: u64 = 0;
    let mut i: usize = 0;
    assert(views.take(0) =~= Seq::<SessionView>::empty());
    while i < chosen.len()
        invariant
            i <= chosen@.len(),
            views == session_views(chosen@),
            keys == |s: SessionView| s.keystrokes as int,
            clicks == |s: SessionView| s.mouse_clicks as int,
            focus == |s: SessionView| s.duration_secs(now),
            session_total(views.take(i as int), keys) >= 0,
            session_total(views.take(i as int), clicks) >= 0,
            session_total(views.take(i as int), focus) >= 0,
            total_keystrokes == saturate_u64(session_total(views.take(i as int), keys)),
            total_clicks == saturate_u64(session_total(views.take(i as int), clicks)),
            total_focus_time_secs == saturate_u64(session_total(views.take(i as int), focus)),
        decreases chosen@.len() - i,
    {
        proof {
            assert(views.take(i + 1).drop_last() =~= views.take(i as int));
            assert(views.take(i + 1).last() == chosen@[i as int]@);
        }
        let secs: i64 = chosen[i].duration_secs(now);
        total_keystrokes = total_keystrokes.saturating_add(chosen[i].keystrokes);
        total_clicks = total_clicks.saturating_add(chosen[i].mouse_clicks);
        total_focus_time_secs = total_focus_time_secs.saturating_add(secs as u64);
        i += 1;
    }
    assert(views.take(i as int) =~= views);
    let app_count: u32 = if stats.len() > 0xffff_ffff {
        u32::MAX
    } else {
        stats.len() as u32
    };
    let session_count: u32 = if chosen.len() > 0xffff_ffff {
        u32::MAX
    } else {
        chosen.len() as u32
    };
    DailySummary { total_keystrokes, total_clicks, total_focus_time_secs, app_count, session_count }
}

/// The seconds of the sessions of `sessions` that began in the hour `hour` of
/// a day, in UTC.
pub open spec fn hour_total(sessions: Seq<SessionView>, hour: int, now: Timestamp) -> int
    decreases sessions.len(),
{
    if sessions.len() == 0 {
        0
    } else {
        let rest = hour_total(sessions.drop_last(), hour, now);
        if (sessions.last().start_time.unix_secs() % 86_400) / 3_600 == hour {
            rest + sessions.last().duration_secs(now)
        } else {
            rest
        }
    }
}

/// The seconds in an hour of the day are never negative.
proof fn lemma_hour_total_nonnegative(sessions: Seq<SessionView>, hour: int, now: Timestamp)
    ensures
        hour_total(sessions, hour, now) >= 0,
    decreases sessions.len(),
{
    if sessions.len() > 0 {
        lemma_hour_total_nonnegative(sessions.drop_last(), hour, now);
    }
}

/// Adds up the seconds of `sessions` by the hour of the day, in UTC, in which
/// each began: one sum for each of the twenty-four hours, held at the largest
/// `u64`.
pub fn activity_by_hour(sessions: &[WindowSession], now: Timestamp) -> (hours: [u64; 24])
    ensures
        forall|h: int|
            0 <= h < 24 ==> #[trigger] hours@[h] == saturate_u64(
                hour_total(session_views(sessions@), h, now),
            ),
{
    let ghost all = session_views(sessions@);
    let mut hours: [u64; 24] = [0u64; 24];
    let mut i: usize = 0;
    assert(all.take(0) =~= Seq::<SessionView>::empty());
    while i < sessions.len()
        invariant
            i <= sessions@.len(),
            all == session_views(sessions@),
            forall|h: int|
                0 <= h < 24 ==> #[trigger] hours@[h] == saturate_u64(
                    hour_total(all.take(i as int), h, now),
                ),
        decreases sessions@.len() - i,
    {
        proof {
            assert(all.take(i + 1).drop_last() =~= all.take(i as int));
            assert(all.take(i + 1).last() == sessions@[i as int]@);
            assert forall|h: int| 0 <= h < 24 implies hour_total(all.take(i as int), h, now)
                >= 0 by {
                lemma_hour_total_nonnegative(all.take(i as int), h, now);
            }
        }
        let hour: usize = sessions[i].start_time.hour() as usize;
        let secs: i64 = sessions[i].duration_secs(now);
        let sum: u64 = hours[hour].saturating_add(secs as u64);
        hours[hour] = sum;
        i += 1;
    }
    assert(all.take(i as int) =~= all);
    hours
}

} // verus!
