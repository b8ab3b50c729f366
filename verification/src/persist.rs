//! What is written to the durable log: session rows chained by their hashes,
//! media rows, and the signed commitment of a day.
//!
//! The database belongs to the caller. A `SaveRun` tells it which row to
//! insert next and is told how the insert went; the chain tip moves on only
//! past rows that were stored.

use crate::activity_store::ActivityStore;
use crate::hashing::session_hash;
use crate::keys::KeyManager;
use crate::media::{media_views, MediaSession, MediaSessionView};
use crate::merkle::{build_merkle_root, merkle_root, texts, DailyIntegrity};
use crate::signing::{
    ed25519_public, hash_and_sign_session, sign_hash, signature_text, signature_valid,
    SigningKey,
};
use crate::text::{copy_of, text_of};
use crate::time::{elapsed_secs, rfc3339_utc, Timestamp};
use crate::types::{saturate_u32, session_views, SessionView, WindowSession};
use vstd::prelude::*;
use vstd::string::*;

verus! {

/// The RFC 3339 text of an instant.
pub open spec fn rfc3339(at: Timestamp) -> Seq<char> {
    rfc3339_utc(at.unix_secs(), at.subsec())
}

/// A row of the session log.
#[derive(Debug)]
pub struct SessionRow {
    pub process_name: String,
    pub window_title: String,
    /// Start of the session, in RFC 3339 form.
    pub start_time: String,
    /// End of the session, in RFC 3339 form.
    pub end_time: String,
    pub keystrokes: u64,
    pub clicks: u64,
    pub scrolls: u64,
    pub is_idle: bool,
    /// Content hash of the row; absent where no key was at hand.
    pub hash: Option<String>,
    /// Signature over the hash.
    pub signature: Option<String>,
    /// Hash of the row stored before this one.
    pub prev_hash: Option<String>,
}

/// What a row of the session log holds.
pub ghost struct SessionRowView {
    pub process_name: Seq<char>,
    pub window_title: Seq<char>,
    pub start_time: Seq<char>,
    pub end_time: Seq<char>,
    pub keystrokes: u64,
    pub clicks: u64,
    pub scrolls: u64,
    pub is_idle: bool,
    pub hash: Option<Seq<char>>,
    pub signature: Option<Seq<char>>,
    pub prev_hash: Option<Seq<char>>,
}

impl View for SessionRow {
    type V = SessionRowView;

    open spec fn view(&self) -> SessionRowView {
        SessionRowView {
            process_name: self.process_name@,
            window_title: self.window_title@,
            start_time: self.start_time@,
            end_time: self.end_time@,
            keystrokes: self.keystrokes,
            clicks: self.clicks,
            scrolls: self.scrolls,
            is_idle: self.is_idle,
            hash: text_of(self.hash),
            signature: text_of(self.signature),
            prev_hash: text_of(self.prev_hash),
        }
    }
}

impl SessionRowView {
    /// The hash that the fields of the row and its `prev_hash` give.
    pub open spec fn content_hash(self) -> Seq<char> {
        session_hash(
            self.process_name,
            self.window_title,
            self.start_time,
            self.end_time,
            self.keystrokes,
            self.clicks,
            self.scrolls,
            self.prev_hash,
        )
    }

    /// The row carries the hash of its content, chained to `prev_hash`, and a
    /// signature over that hash made with the seed `seed`; or, without a
    /// seed, none of the three.
    pub open spec fn sealed_with(self, seed: Option<Seq<u8>>) -> bool {
        match seed {
            Some(seed) => {
                &&& self.hash == Some(self.content_hash())
                &&& self.signature == Some(signature_text(self.content_hash(), seed))
                &&& signature_valid(
                    self.content_hash(),
                    self.signature->0,
                    ed25519_public(seed),
                )
            },
            None => self.hash is None && self.signature is None && self.prev_hash is None,
        }
    }
}

/// The row for a session that ended at `end`, sealed with `seed` behind the
/// chain tip `tip`.
pub open spec fn sealed_row(
    session: SessionView,
    end: Timestamp,
    seed: Option<Seq<u8>>,
    tip: Option<Seq<char>>,
) -> SessionRowView {
    let plain = SessionRowView {
        process_name: session.process_name,
        window_title: session.window_title,
        start_time: rfc3339(session.start_time),
        end_time: rfc3339(end),
        keystrokes: session.keystrokes,
        clicks: session.mouse_clicks,
        scrolls: session.mouse_scrolls,
        is_idle: session.is_idle,
        hash: None,
        signature: None,
        prev_hash: None,
    };
    match seed {
        Some(seed) => {
            let chained = SessionRowView { prev_hash: tip, ..plain };
            SessionRowView {
                hash: Some(chained.content_hash()),
                signature: Some(signature_text(chained.content_hash(), seed)),
                ..chained
            }
        },
        None => plain,
    }
}

/// Makes the row for `session`, which ended at `end`: with a key, the row
/// carries its content hash chained to `tip`, the signature over the hash,
/// and `tip`; without a key it carries none of them.
pub fn seal_session(
    session: &WindowSession,
    end: Timestamp,
    key: Option<&SigningKey>,
    tip: &Option<String>,
) -> (row: SessionRow)
    ensures
        row@ == sealed_row(
            session@,
            end,
            match key {
                Some(k) => Some(k@),
                None => None,
            },
            text_of(*tip),
        ),
        row@.sealed_with(
            match key {
                Some(k) => Some(k@),
                None => None,
            },
        ),
{
    let start_time = session.start_time.to_rfc3339();
    let end_time = end.to_rfc3339();
    match key {
        Some(k) => {
            let prev: Option<&str> = match tip {
                Some(t) => Some(t.as_str()),
                None => None,
            };
            let (hash, signature) = hash_and_sign_session(
                k,
                session.process_name.as_str(),
                session.window_title.as_str(),
                start_time.as_str(),
                end_time.as_str(),
                session.keystrokes,
                session.mouse_clicks,
                session.mouse_scrolls,
                prev,
            );
            SessionRow {
                process_name: session.process_name.clone(),
                window_title: session.window_title.clone(),
                start_time,
                end_time,
                keystrokes: session.keystrokes,
                clicks: session.mouse_clicks,
                scrolls: session.mouse_scrolls,
                is_idle: session.is_idle,
                hash: Some(hash),
                signature: Some(signature),
                prev_hash: copy_of(tip),
            }
        },
        None => SessionRow {
            process_name: session.process_name.clone(),
            window_title: session.window_title.clone(),
            start_time,
            end_time,
            keystrokes: session.keystrokes,
            clicks: session.mouse_clicks,
            scrolls: session.mouse_scrolls,
            is_idle: session.is_idle,
            hash: None,
            signature: None,
            prev_hash: None,
        },
    }
}

/// A row of the media log.
#[derive(Debug)]
pub struct MediaRow {
    pub title: String,
    pub artist: String,
    pub album: String,
    pub source_app: String,
    /// Start of the playback, in RFC 3339 form.
    pub start_time: String,
    /// End of the playback, in RFC 3339 form.
    pub end_time: String,
    /// Whole seconds from start to end, never negative.
    pub duration_secs: i64,
}

/// What a row of the media log holds.
pub ghost struct MediaRowView {
    pub title: Seq<char>,
    pub artist: Seq<char>,
    pub album: Seq<char>,
    pub source_app: Seq<char>,
    pub start_time: Seq<char>,
    pub end_time: Seq<char>,
    pub duration_secs: i64,
}

impl View for MediaRow {
    type V = MediaRowView;

    open spec fn view(&self) -> MediaRowView {
        MediaRowView {
            title: self.title@,
            artist: self.artist@,
            album: self.album@,
            source_app: self.source_app@,
            start_time: self.start_time@,
            end_time: self.end_time@,
            duration_secs: self.duration_secs,
        }
    }
}

/// The row for a media session that ended at `end`.
pub open spec fn media_row(media: MediaSessionView, end: Timestamp) -> MediaRowView {
    MediaRowView {
        title: media.media_info.title,
        artist: media.media_info.artist,
        album: media.media_info.album,
        source_app: media.media_info.source_app_id,
        start_time: rfc3339(media.start_time),
        end_time: rfc3339(end),
        duration_secs: elapsed_secs(media.start_time, end) as i64,
    }
}

/// Makes the row for `media`, which ended at `end`.
pub fn media_row_of(media: &MediaSession, end: Timestamp) -> (row: MediaRow)
    ensures
        row@ == media_row(media@, end),
{
    MediaRow {
        title: media.media_info.title.clone(),
        artist: media.media_info.artist.clone(),
        album: media.media_info.album.clone(),
        source_app: media.media_info.source_app_id.clone(),
        start_time: media.start_time.to_rfc3339(),
        end_time: end.to_rfc3339(),
        duration_secs: end.elapsed_secs_since(&media.start_time),
    }
}

/// How the insert of the row that was handed out last went.
#[derive(Debug, Clone, Copy, PartialEq, Eq, Structural)]
pub enum InsertOutcome {
    /// No row was handed out yet.
    NothingTried,
    /// The row is in the log.
    Stored,
    /// The insert failed; the row is not in the log.
    Failed,
}

/// What the caller is to do next.
#[derive(Debug)]
pub enum SaveAction {
    /// Insert this row into the session log.
    InsertSession(SessionRow),
    /// Insert this row into the media log.
    InsertMedia(MediaRow),
    /// Nothing is left to insert.
    Done,
}

/// What a `SaveAction` holds.
pub ghost enum SaveActionView {
    InsertSession(SessionRowView),
    InsertMedia(MediaRowView),
    Done,
}

impl View for SaveAction {
    type V = SaveActionView;

    open spec fn view(&self) -> SaveActionView {
        match self {
            SaveAction::InsertSession(row) => SaveActionView::InsertSession(row@),
            SaveAction::InsertMedia(row) => SaveActionView::InsertMedia(row@),
            SaveAction::Done => SaveActionView::Done,
        }
    }
}

/// The place of the first session at or behind `from` that has an end, or the
/// length of the list.
pub open spec fn next_ended(sessions: Seq<SessionView>, from: int) -> int
    decreases sessions.len() - from,
{
    if from < 0 || from >= sessions.len() {
        sessions.len() as int
    } else if sessions[from].end_time is Some {
        from
    } else {
        next_ended(sessions, from + 1)
    }
}

/// As `next_ended`, for media sessions.
pub open spec fn next_ended_media(media: Seq<MediaSessionView>, from: int) -> int
    decreases media.len() - from,
{
    if from < 0 || from >= media.len() {
        media.len() as int
    } else if media[from].end_time is Some {
        from
    } else {
        next_ended_media(media, from + 1)
    }
}

/// The state of one run of persisting what was pending.
pub ghost struct SaveRunView {
    /// The sessions to persist, in the order in which they were queued.
    pub sessions: Seq<SessionView>,
    /// The media sessions to persist.
    pub media: Seq<MediaSessionView>,
    /// How many sessions were dealt with.
    pub next_session: int,
    /// How many media sessions were dealt with.
    pub next_media: int,
    /// The chain tip: the hash of the row stored last.
    pub tip: Option<Seq<char>>,
    /// The seed of the signing key, where there is a key.
    pub seed: Option<Seq<u8>>,
    /// The session row that was handed out and is not yet answered for.
    pub in_flight: Option<SessionRowView>,
    /// The session rows that were stored in this run, in their order.
    pub persisted: Seq<SessionRowView>,
    /// The chain tip with which the run began.
    pub first_tip: Option<Seq<char>>,
}

impl SaveRunView {
    /// The run before its first step.
    pub open spec fn begun(
        sessions: Seq<SessionView>,
        media: Seq<MediaSessionView>,
        seed: Option<Seq<u8>>,
        tip: Option<Seq<char>>,
    ) -> SaveRunView {
        SaveRunView {
            sessions,
            media,
            next_session: 0,
            next_media: 0,
            tip,
            seed,
            in_flight: None,
            persisted: Seq::empty(),
            first_tip: tip,
        }
    }

    /// The hash that stands before the row at place `i` of the stored rows.
    pub open spec fn hash_before(self, i: int) -> Option<Seq<char>> {
        if i == 0 {
            self.first_tip
        } else {
            self.persisted[i - 1].hash
        }
    }

    /// The invariant of a run: every stored row is sealed; with a key, each
    /// names the hash of the row stored before it, the first of them the tip
    /// with which the run began; the tip is the hash of the row stored last;
    /// and an idle row counts no input.
    pub open spec fn wf(self) -> bool {
        &&& 0 <= self.next_session <= self.sessions.len()
        &&& 0 <= self.next_media <= self.media.len()
        &&& forall|i: int|
            0 <= i < self.sessions.len() ==> (#[trigger] self.sessions[i]).idle_is_silent()
        &&& forall|i: int|
            0 <= i < self.persisted.len() ==> {
                &&& (#[trigger] self.persisted[i]).sealed_with(self.seed)
                &&& (self.seed is Some ==> self.persisted[i].prev_hash == self.hash_before(i))
                &&& (self.persisted[i].is_idle ==> self.persisted[i].keystrokes == 0
                    && self.persisted[i].clicks == 0 && self.persisted[i].scrolls == 0)
            }
        &&& self.tip == self.hash_before(self.persisted.len() as int)
        &&& (self.in_flight matches Some(row) ==> {
            &&& row.sealed_with(self.seed)
            &&& (self.seed is Some ==> row.prev_hash == self.tip)
            &&& (row.is_idle ==> row.keystrokes == 0 && row.clicks == 0 && row.scrolls == 0)
        })
    }

    /// The run after it was told how the last insert went: a stored session
    /// row joins the log and its hash becomes the tip; a failed one leaves
    /// both as they were.
    pub open spec fn settled(self, outcome: InsertOutcome) -> SaveRunView {
        match self.in_flight {
            Some(row) => if outcome == InsertOutcome::Stored {
                SaveRunView {
                    tip: row.hash,
                    persisted: self.persisted.push(row),
                    in_flight: None,
                    ..self
                }
            } else {
                SaveRunView { in_flight: None, ..self }
            },
            None => self,
        }
    }

    /// What a run with nothing in flight hands out next: the row of the next
    /// session that has an end, then the rows of the media sessions that have
    /// an end, then nothing.
    pub open spec fn proposal(self) -> SaveActionView {
        let i = next_ended(self.sessions, self.next_session);
        if i < self.sessions.len() {
            SaveActionView::InsertSession(
                sealed_row(self.sessions[i], self.sessions[i].end_time->0, self.seed, self.tip),
            )
        } else {
            let j = next_ended_media(self.media, self.next_media);
            if j < self.media.len() {
                SaveActionView::InsertMedia(media_row(self.media[j], self.media[j].end_time->0))
            } else {
                SaveActionView::Done
            }
        }
    }

    /// The run after it handed out what `proposal` says.
    pub open spec fn proposed(self) -> SaveRunView {
        let i = next_ended(self.sessions, self.next_session);
        if i < self.sessions.len() {
            SaveRunView {
                next_session: i + 1,
                in_flight: Some(
                    sealed_row(
                        self.sessions[i],
                        self.sessions[i].end_time->0,
                        self.seed,
                        self.tip,
                    ),
                ),
                ..self
            }
        } else {
            let j = next_ended_media(self.media, self.next_media);
            if j < self.media.len() {
                SaveRunView { next_session: i, next_media: j + 1, ..self }
            } else {
                SaveRunView { next_session: i, next_media: j, ..self }
            }
        }
    }
}

/// One run of persisting what was pending in the store.
pub struct SaveRun {
    sessions: Vec<WindowSession>,
    media: Vec<MediaSession>,
    next_session: usize,
    next_media: usize,
    tip: Option<String>,
    key: Option<SigningKey>,
    in_flight: Option<Option<String>>,
    flying: Ghost<Option<SessionRowView>>,
    persisted: Ghost<Seq<SessionRowView>>,
    first_tip: Ghost<Option<Seq<char>>>,
}

impl View for SaveRun {
    type V = SaveRunView;

    closed spec fn view(&self) -> SaveRunView {
        SaveRunView {
            sessions: session_views(self.sessions@),
            media: media_views(self.media@),
            next_session: self.next_session as int,
            next_media: self.next_media as int,
            tip: text_of(self.tip),
            seed: match self.key {
                Some(k) => Some(k@),
                None => None,
            },
            in_flight: self.flying@,
            persisted: self.persisted@,
            first_tip: self.first_tip@,
        }
    }
}

impl SaveRun {
    /// The invariant of the run; every step keeps it.
    pub closed spec fn wf(&self) -> bool {
        &&& self@.wf()
        &&& match self.in_flight {
            Some(hash) => self.flying@ matches Some(row) && row.hash == text_of(hash),
            None => self.flying@ is None,
        }
    }

    /// What `wf` says of the view of the run.
    pub proof fn lemma_wf_view(&self)
        requires
            self.wf(),
        ensures
            self@.wf(),
    {
    }

    /// Takes note of how the insert of the row handed out last went, and
    /// hands out what is to be inserted next. Sessions come first, in the
    /// order in which they were queued, then media; one without an end is
    /// passed over. The hash of a session row becomes the chain tip when the
    /// row was stored, and only then.
    pub fn next_action(&mut self, previous: InsertOutcome) -> (action: SaveAction)
        requires
            old(self).wf(),
        ensures
            final(self).wf(),
            final(self)@ == old(self)@.settled(previous).proposed(),
            action@ == old(self)@.settled(previous).proposal(),
    {
        if let Some(hash) = self.in_flight.take() {
            if previous == InsertOutcome::Stored {
                proof {
                    self.persisted@ = self.persisted@.push(self.flying@->0);
                }
                self.tip = hash;
            }
            proof {
                self.flying@ = None;
            }
        }
        assert(self@ == old(self)@.settled(previous));
        assert(self@.wf()) by {
            let before = old(self)@;
            let now = self@;
            if before.in_flight is Some && previous == InsertOutcome::Stored {
                assert forall|i: int| 0 <= i < now.persisted.len() implies {
                    &&& (#[trigger] now.persisted[i]).sealed_with(now.seed)
                    &&& (now.seed is Some ==> now.persisted[i].prev_hash == now.hash_before(i))
                    &&& (now.persisted[i].is_idle ==> now.persisted[i].keystrokes == 0
                        && now.persisted[i].clicks == 0 && now.persisted[i].scrolls == 0)
                } by {
                    if i < before.persisted.len() {
                        assert(now.persisted[i] == before.persisted[i]);
                        assert(now.hash_before(i) == before.hash_before(i));
                    }
                }
            }
        }
        let ghost settled = self@;
        while self.next_session < self.sessions.len()
            invariant
                self.wf(),
                self.in_flight is None,
                settled == old(self)@.settled(previous),
                settled.in_flight is None,
                self@ == (SaveRunView { next_session: self.next_session as int, ..settled }),
                settled.next_session <= self.next_session <= self.sessions@.len(),
                next_ended(settled.sessions, settled.next_session) == next_ended(
                    settled.sessions,
                    self.next_session as int,
                ),
            decreases self.sessions@.len() - self.next_session,
        {
            let i: usize = self.next_session;
            match self.sessions[i].end_time {
                Some(end) => {
                    let row = seal_session(&self.sessions[i], end, self.key.as_ref(), &self.tip);
                    self.next_session = i + 1;
                    self.in_flight = Some(copy_of(&row.hash));
                    proof {
                        self.flying@ = Some(row@);
                        assert(settled.sessions[i as int] == self.sessions@[i as int]@);
                        assert(settled.sessions[i as int].idle_is_silent());
                    }
                    return SaveAction::InsertSession(row);
                },
                None => {
                    proof {
                        assert(settled.sessions[i as int] == self.sessions@[i as int]@);
                    }
                    self.next_session = i + 1;
                },
            }
        }
        let ghost drained = self@;
        while self.next_media < self.media.len()
            invariant
                self.wf(),
                self.in_flight is None,
                settled == old(self)@.settled(previous),
                settled.in_flight is None,
                drained == (SaveRunView { next_session: settled.sessions.len() as int, ..settled }),
                next_ended(settled.sessions, settled.next_session) == settled.sessions.len(),
                self@ == (SaveRunView { next_media: self.next_media as int, ..drained }),
                drained.next_session == drained.sessions.len(),
                drained.next_media <= self.next_media <= self.media@.len(),
                next_ended_media(drained.media, drained.next_media) == next_ended_media(
                    drained.media,
                    self.next_media as int,
                ),
            decreases self.media@.len() - self.next_media,
        {
            let j: usize = self.next_media;
            proof {
                assert(drained.media[j as int] == self.media@[j as int]@);
            }
            match self.media[j].end_time {
                Some(end) => {
                    let row = media_row_of(&self.media[j], end);
                    self.next_media = j + 1;
                    return SaveAction::InsertMedia(row);
                },
                None => {
                    self.next_media = j + 1;
                },
            }
        }
        SaveAction::Done
    }
}

/// Begins a run of persisting: takes the sessions and the media that wait in
/// the store, which leaves both queues empty. `tip` is the hash of the row
/// that was stored last, as the log gives it; rows are sealed with `key`
/// where there is one.
pub fn save_pending_to_db(store: &mut ActivityStore, key: Option<&KeyManager>, tip: Option<String>) -> (run: SaveRun)
    requires
        old(store).wf(),
    ensures
        run.wf(),
        run@ == SaveRunView::begun(
            old(store)@.pending_sessions,
            old(store)@.pending_media,
            match key {
                Some(k) => Some(k.seed()),
                None => None,
            },
            text_of(tip),
        ),
        final(store).wf(),
        final(store)@ == (crate::activity_store::StoreView {
            pending_sessions: Seq::empty(),
            pending_media: Seq::empty(),
            ..old(store)@
        }),
{
    let sessions = store.drain_pending_sessions();
    let media = store.drain_pending_media();
    let signing = match key {
        Some(k) => Some(k.signing_key().duplicate()),
        None => None,
    };
    let run = SaveRun {
        sessions,
        media,
        next_session: 0,
        next_media: 0,
        tip,
        key: signing,
        in_flight: None,
        flying: Ghost(None),
        persisted: Ghost(Seq::empty()),
        first_tip: Ghost(text_of(tip)),
    };
    proof {
        assert forall|i: int| 0 <= i < run@.sessions.len() implies (
        #[trigger] run@.sessions[i]).idle_is_silent() by {
            assert(old(store)@.persistable(run.sessions@[i]@));
        }
    }
    run
}

/// In a run, each stored row names the hash of the row stored before it, and
/// the first stored row the tip with which the run began, as long as the rows
/// are sealed with a key. Every stored row carries the hash of its own
/// content, and an idle row counts no input.
pub proof fn lemma_stored_rows_are_chained(run: SaveRunView, i: int)
    requires
        run.wf(),
        0 <= i < run.persisted.len(),
    ensures
        run.seed is Some ==> run.persisted[i].hash == Some(run.persisted[i].content_hash()),
        run.seed is Some && i > 0 ==> run.persisted[i].prev_hash == run.persisted[i - 1].hash,
        run.seed is Some && i == 0 ==> run.persisted[i].prev_hash == run.first_tip,
        run.seed is None ==> run.persisted[i].hash is None && run.persisted[i].prev_hash is None,
        i > 0 && run.persisted[i].prev_hash is Some && run.persisted[i - 1].hash is Some
            ==> run.persisted[i].prev_hash == run.persisted[i - 1].hash,
        run.persisted[i].is_idle ==> run.persisted[i].keystrokes == 0 && run.persisted[i].clicks
            == 0 && run.persisted[i].scrolls == 0,
{
    assert(run.persisted[i].sealed_with(run.seed));
    if i > 0 {
        assert(run.persisted[i - 1].sealed_with(run.seed));
    }
}

/// The text that is signed for the commitment of a day: the root, the root of
/// the day before or `genesis`, and the date, separated by `|`.
pub open spec fn commitment_text(root: Seq<char>, prev_day_root: Option<Seq<char>>, date: Seq<char>) -> Seq<char> {
    root + "|"@ + (match prev_day_root {
        Some(prev) => prev,
        None => "genesis"@,
    }) + "|"@ + date
}

/// What a record of daily integrity holds.
pub ghost struct DailyIntegrityView {
    pub date: Seq<char>,
    pub merkle_root: Seq<char>,
    pub prev_day_root: Option<Seq<char>>,
    pub session_count: u32,
    pub signature: Seq<char>,
}

impl View for DailyIntegrity {
    type V = DailyIntegrityView;

    open spec fn view(&self) -> DailyIntegrityView {
        DailyIntegrityView {
            date: self.date@,
            merkle_root: self.merkle_root@,
            prev_day_root: text_of(self.prev_day_root),
            session_count: self.session_count,
            signature: self.signature@,
        }
    }
}

/// The commitment of the day `date` over the session hashes `hashes`, which
/// are not empty, signed with the seed `seed`.
pub open spec fn daily_commitment(
    date: Seq<char>,
    hashes: Seq<Seq<char>>,
    prev_day_root: Option<Seq<char>>,
    seed: Seq<u8>,
) -> DailyIntegrityView
    recommends
        hashes.len() > 0,
{
    let root = merkle_root(hashes)->0;
    DailyIntegrityView {
        date,
        merkle_root: root,
        prev_day_root,
        session_count: saturate_u32(hashes.len() as int),
        signature: signature_text(commitment_text(root, prev_day_root, date), seed),
    }
}

/// The message for a missing key.
pub open spec fn no_key_message() -> Seq<char> {
    "Key manager not initialized"@
}

/// Computes the commitment of the day `date`: the Merkle root over `hashes`,
/// the session hashes of that day in the order of their start, and a
/// signature over the root, the root of the day before (`prev_day_root`) and
/// the date. Without a key it fails; a day without hashes has no commitment.
pub fn compute_daily_integrity(
    date: &str,
    hashes: &[String],
    prev_day_root: Option<&str>,
    key: Option<&KeyManager>,
) -> (outcome: Result<Option<DailyIntegrity>, String>)
    ensures
        match outcome {
            Ok(Some(record)) => key is Some && hashes@.len() > 0 && record@ == daily_commitment(
                date@,
                texts(hashes@),
                match prev_day_root {
                    Some(p) => Some(p@),
                    None => None,
                },
                key->0.seed(),
            ) && signature_valid(
                commitment_text(record@.merkle_root, record@.prev_day_root, date@),
                record@.signature,
                key->0.public(),
            ),
            Ok(None) => key is Some && hashes@.len() == 0,
            Err(why) => key is None && why@ == no_key_message(),
        },
{
    let keys = match key {
        Some(k) => k,
        None => {
            return Err(String::from_str("Key manager not initialized"));
        },
    };
    let root = match build_merkle_root(hashes) {
        Some(r) => r,
        None => {
            return Ok(None);
        },
    };
    let mut sign_data: String = root.clone();
    sign_data.append("|");
    match prev_day_root {
        Some(prev) => sign_data.append(prev),
        None => sign_data.append("genesis"),
    }
    sign_data.append("|");
    sign_data.append(date);
    let signature = sign_hash(sign_data.as_str(), keys.signing_key());
    let session_count: u32 = if hashes.len() > 0xffff_ffff {
        u32::MAX
    } else {
        hashes.len() as u32
    };
    let prev_owned: Option<String> = match prev_day_root {
        Some(prev) => Some(String::from_str(prev)),
        None => None,
    };
    proof {
        use_type_invariant(keys);
        keys.lemma_paired();
    }
    Ok(
        Some(
            DailyIntegrity {
                date: String::from_str(date),
                merkle_root: root,
                prev_day_root: prev_owned,
                session_count,
                signature,
            },
        ),
    )
}

} // verus!
