//! What is playing: the media a player reports and the sessions made of it.

use crate::time::{elapsed_secs, Timestamp};
use vstd::prelude::*;

verus! {

/// Playback state that a player reports.
#[derive(Debug, Clone, Copy, PartialEq, Eq, Structural)]
pub enum PlaybackStatus {
    Playing,
    Paused,
    Stopped,
    Changing,
    Unknown,
}

/// One observation of a player: what it plays and in which state.
#[derive(Debug)]
pub struct MediaInfo {
    /// Title of the song or video.
    pub title: String,
    /// Artist or channel.
    pub artist: String,
    /// Album, where the player gives one.
    pub album: String,
    /// Id of the application that plays.
    pub source_app_id: String,
    /// State of the playback.
    pub playback_status: PlaybackStatus,
    /// When the observation was made.
    pub timestamp: Timestamp,
}

/// What an observation holds, with its texts as sequences of characters.
pub ghost struct MediaInfoView {
    pub title: Seq<char>,
    pub artist: Seq<char>,
    pub album: Seq<char>,
    pub source_app_id: Seq<char>,
    pub playback_status: PlaybackStatus,
    pub timestamp: Timestamp,
}

impl MediaInfoView {
    /// Media plays when the player says so and names a title.
    pub open spec fn is_playing(self) -> bool {
        self.playback_status == PlaybackStatus::Playing && self.title.len() > 0
    }

    /// Two observations are of the same media when title and artist agree.
    pub open spec fn same_media(self, other: MediaInfoView) -> bool {
        self.title == other.title && self.artist == other.artist
    }
}

impl View for MediaInfo {
    type V = MediaInfoView;

    open spec fn view(&self) -> MediaInfoView {
        MediaInfoView {
            title: self.title@,
            artist: self.artist@,
            album: self.album@,
            source_app_id: self.source_app_id@,
            playback_status: self.playback_status,
            timestamp: self.timestamp,
        }
    }
}

impl Clone for MediaInfo {
    fn clone(&self) -> (copy: Self)
        ensures
            copy@ == self@,
    {
        MediaInfo {
            title: self.title.clone(),
            artist: self.artist.clone(),
            album: self.album.clone(),
            source_app_id: self.source_app_id.clone(),
            playback_status: self.playback_status,
            timestamp: self.timestamp,
        }
    }
}

impl MediaInfo {
    /// An observation made at `now`.
    pub fn new(
        title: String,
        artist: String,
        album: String,
        source_app_id: String,
        playback_status: PlaybackStatus,
        now: Timestamp,
    ) -> (info: MediaInfo)
        ensures
            info@ == (MediaInfoView {
                title: title@,
                artist: artist@,
                album: album@,
                source_app_id: source_app_id@,
                playback_status,
                timestamp: now,
            }),
    {
        MediaInfo { title, artist, album, source_app_id, playback_status, timestamp: now }
    }

    /// Whether media is playing: the state is `Playing` and there is a title.
    pub fn is_playing(&self) -> (playing: bool)
        ensures
            playing == self@.is_playing(),
    {
        self.playback_status == PlaybackStatus::Playing && !self.title.as_str().is_empty()
    }
}

/// A stretch of time during which one piece of media played.
#[derive(Debug)]
pub struct MediaSession {
    /// The media, as first observed.
    pub media_info: MediaInfo,
    /// When playback began.
    pub start_time: Timestamp,
    /// When playback ended; `None` while it goes on.
    pub end_time: Option<Timestamp>,
}

/// What a media session holds.
pub ghost struct MediaSessionView {
    pub media_info: MediaInfoView,
    pub start_time: Timestamp,
    pub end_time: Option<Timestamp>,
}

impl MediaSessionView {
    /// A session of `info` that begins at `now`.
    pub open spec fn fresh(info: MediaInfoView, now: Timestamp) -> MediaSessionView {
        MediaSessionView { media_info: info, start_time: now, end_time: None }
    }

    /// The session with its end set to `now`.
    pub open spec fn ended_at(self, now: Timestamp) -> MediaSessionView {
        MediaSessionView { end_time: Some(now), ..self }
    }

    /// Length of the session in whole seconds: up to its end, or up to `now`
    /// while it has none.
    pub open spec fn duration_secs(self, now: Timestamp) -> int {
        match self.end_time {
            Some(end) => elapsed_secs(self.start_time, end),
            None => elapsed_secs(self.start_time, now),
        }
    }
}

impl View for MediaSession {
    type V = MediaSessionView;

    open spec fn view(&self) -> MediaSessionView {
        MediaSessionView {
            media_info: self.media_info@,
            start_time: self.start_time,
            end_time: self.end_time,
        }
    }
}

impl Clone for MediaSession {
    fn clone(&self) -> (copy: Self)
        ensures
            copy@ == self@,
    {
        MediaSession {
            media_info: self.media_info.clone(),
            start_time: self.start_time,
            end_time: self.end_time,
        }
    }
}

/// The views of a list of media sessions.
pub open spec fn media_views(sessions: Seq<MediaSession>) -> Seq<MediaSessionView> {
    Seq::new(sessions.len(), |i: int| sessions[i]@)
}

impl MediaSession {
    /// A session of `media_info` that begins at `now`.
    pub fn new(media_info: MediaInfo, now: Timestamp) -> (session: MediaSession)
        ensures
            session@ == MediaSessionView::fresh(media_info@, now),
    {
        MediaSession { media_info, start_time: now, end_time: None }
    }

    /// Ends the session at `now`.
    pub fn finalize(&mut self, now: Timestamp)
        ensures
            final(self)@ == old(self)@.ended_at(now),
    {
        self.end_time = Some(now);
    }

    /// Length of the session in whole seconds, never negative: up to its end,
    /// or up to `now` while it goes on.
    pub fn duration_secs(&self, now: Timestamp) -> (secs: i64)
        ensures
            secs == self@.duration_secs(now),
            secs >= 0,
    {
        match self.end_time {
            Some(end) => end.elapsed_secs_since(&self.start_time),
            None => now.elapsed_secs_since(&self.start_time),
        }
    }

    /// Whether `other` is of the media of this session: title and artist
    /// agree, whatever the album, the player or the state.
    pub fn is_same_media(&self, other: &MediaInfo) -> (same: bool)
        ensures
            same == self@.media_info.same_media(other@),
    {
        self.media_info.title == other.title && self.media_info.artist == other.artist
    }
}

} // verus!
