//! Control-surface plumbing: the playback vocabulary shared by every sink,
//! the inbound command path, and the media-session sink's own state machine.
//!
//! A sink never mutates playback state itself: a user gesture on a sink
//! becomes a `PlaybackAction` on the one shared command queue, which the
//! playback engine consumes first-enqueued, first-applied. Outbound, each
//! state change becomes a call the platform layer performs against the
//! session broker — and is dropped, not queued, while the sink is not
//! ready.

use vstd::prelude::*;

use crate::artwork::Artwork;
use crate::artwork::ArtworkCache;
use crate::song::Song;
use crate::song::SongDataView;
use crate::song::SongView;

verus! {

/// Transport state as the engine reports it.
#[derive(Clone, Copy, PartialEq, Eq, Structural, Debug)]
pub enum PlaybackState {
    Stopped,
    Playing,
    Paused,
}

/// How the playlist continues after a track ends.
#[derive(Clone, Copy, PartialEq, Eq, Structural, Debug)]
pub enum RepeatMode {
    Consecutive,
    RepeatAll,
    RepeatOne,
}

/// A command from any control surface to the playback engine.
#[derive(Clone, Copy, PartialEq, Eq, Structural, Debug)]
pub enum PlaybackAction {
    Play,
    Pause,
    Toggle,
    Stop,
    Skip,
    Previous,
    Seek(i64),
    Raise,
    Quit,
}

/// An inbound signal of the desktop media-session broker.
#[derive(Clone, Copy, PartialEq, Eq, Structural, Debug)]
pub enum SinkSignal {
    Raise,
    Quit,
    PlayPause,
    Play,
    Pause,
    Stop,
    Next,
    Previous,
    /// Relative seek, in microseconds.
    Seek(i64),
    /// Absolute position, in microseconds.
    SetPosition(i64),
}

/// Loop status as the media-session protocol speaks it.
#[derive(Clone, Copy, PartialEq, Eq, Structural, Debug)]
pub enum LoopStatus {
    NoLoop,
    Playlist,
    Track,
}

/// Playback status as the media-session protocol speaks it.
#[derive(Clone, Copy, PartialEq, Eq, Structural, Debug)]
pub enum PlaybackStatus {
    Playing,
    Paused,
    Stopped,
}

/// The command each broker signal turns into.
pub open spec fn spec_action_for_signal(s: SinkSignal) -> PlaybackAction {
    match s {
        SinkSignal::Raise => PlaybackAction::Raise,
        SinkSignal::Quit => PlaybackAction::Quit,
        SinkSignal::PlayPause => PlaybackAction::Toggle,
        SinkSignal::Play => PlaybackAction::Play,
        SinkSignal::Pause => PlaybackAction::Pause,
        SinkSignal::Stop => PlaybackAction::Stop,
        SinkSignal::Next => PlaybackAction::Skip,
        SinkSignal::Previous => PlaybackAction::Previous,
        SinkSignal::Seek(o) => PlaybackAction::Seek(o),
        SinkSignal::SetPosition(p) => PlaybackAction::Seek(p),
    }
}

/// Maps a broker signal to the command it enqueues.
pub fn action_for_signal(s: SinkSignal) -> (r: PlaybackAction)
    ensures
        r == spec_action_for_signal(s),
{
    match s {
        SinkSignal::Raise => PlaybackAction::Raise,
        SinkSignal::Quit => PlaybackAction::Quit,
        SinkSignal::PlayPause => PlaybackAction::Toggle,
        SinkSignal::Play => PlaybackAction::Play,
        SinkSignal::Pause => PlaybackAction::Pause,
        SinkSignal::Stop => PlaybackAction::Stop,
        SinkSignal::Next => PlaybackAction::Skip,
        SinkSignal::Previous => PlaybackAction::Previous,
        SinkSignal::Seek(o) => PlaybackAction::Seek(o),
        SinkSignal::SetPosition(p) => PlaybackAction::Seek(p),
    }
}

/// An event of the notification-area icon.
#[derive(Clone, Copy, PartialEq, Eq, Structural, Debug)]
pub enum TrayEvent {
    LeftClick,
    RightClick,
    MenuRestore,
    MenuQuit,
}

/// What the notification-area icon does with an event: a left click
/// toggles playback, the menu entries raise or quit, and a right click
/// only opens that menu.
pub open spec fn spec_tray_action(e: TrayEvent) -> Option<PlaybackAction> {
    match e {
        TrayEvent::LeftClick => Some(PlaybackAction::Toggle),
        TrayEvent::RightClick => None,
        TrayEvent::MenuRestore => Some(PlaybackAction::Raise),
        TrayEvent::MenuQuit => Some(PlaybackAction::Quit),
    }
}

/// Maps a notification-area event to the command it enqueues, if any.
pub fn tray_action(e: TrayEvent) -> (r: Option<PlaybackAction>)
    ensures
        r == spec_tray_action(e),
{
    match e {
        TrayEvent::LeftClick => Some(PlaybackAction::Toggle),
        TrayEvent::RightClick => None,
        TrayEvent::MenuRestore => Some(PlaybackAction::Raise),
        TrayEvent::MenuQuit => Some(PlaybackAction::Quit),
    }
}

/// The loop status each repeat mode maps to.
pub open spec fn spec_loop_status_for(m: RepeatMode) -> LoopStatus {
    match m {
        RepeatMode::Consecutive => LoopStatus::NoLoop,
        RepeatMode::RepeatAll => LoopStatus::Playlist,
        RepeatMode::RepeatOne => LoopStatus::Track,
    }
}

/// Maps a repeat mode to the session broker's loop status.
pub fn loop_status_for(m: RepeatMode) -> (r: LoopStatus)
    ensures
        r == spec_loop_status_for(m),
{
    match m {
        RepeatMode::Consecutive => LoopStatus::NoLoop,
        RepeatMode::RepeatAll => LoopStatus::Playlist,
        RepeatMode::RepeatOne => LoopStatus::Track,
    }
}

/// The session status each transport state maps to.
pub open spec fn spec_playback_status_for(s: PlaybackState) -> PlaybackStatus {
    match s {
        PlaybackState::Playing => PlaybackStatus::Playing,
        PlaybackState::Paused => PlaybackStatus::Paused,
        PlaybackState::Stopped => PlaybackStatus::Stopped,
    }
}

/// Maps a transport state to the session broker's playback status.
pub fn playback_status_for(s: PlaybackState) -> (r: PlaybackStatus)
    ensures
        r == spec_playback_status_for(s),
{
    match s {
        PlaybackState::Playing => PlaybackStatus::Playing,
        PlaybackState::Paused => PlaybackStatus::Paused,
        PlaybackState::Stopped => PlaybackStatus::Stopped,
    }
}

/// What the repeat button shows for each mode: an icon name and a tooltip.
pub open spec fn spec_repeat_display(m: RepeatMode) -> (Seq<char>, Seq<char>) {
    match m {
        RepeatMode::Consecutive => ("media-playlist-consecutive-symbolic"@, "Enable Repeat"@),
        RepeatMode::RepeatAll => ("media-playlist-repeat-symbolic"@, "Repeat All Songs"@),
        RepeatMode::RepeatOne => (
            "media-playlist-repeat-song-symbolic"@,
            "Repeat the Current Song"@,
        ),
    }
}

/// The icon name and tooltip the repeat button shows for a mode.
pub fn repeat_display(m: RepeatMode) -> (r: (String, String))
    ensures
        r.0@ == spec_repeat_display(m).0,
        r.1@ == spec_repeat_display(m).1,
{
    match m {
        RepeatMode::Consecutive => (
            String::from_str("media-playlist-consecutive-symbolic"),
            String::from_str("Enable Repeat"),
        ),
        RepeatMode::RepeatAll => (
            String::from_str("media-playlist-repeat-symbolic"),
            String::from_str("Repeat All Songs"),
        ),
        RepeatMode::RepeatOne => (
            String::from_str("media-playlist-repeat-song-symbolic"),
            String::from_str("Repeat the Current Song"),
        ),
    }
}

/// The single shared command queue: every control surface enqueues here and
/// the engine dequeues, so control input is serialized at one point however
/// many sinks race.
pub struct CommandQueue {
    pub items: Vec<PlaybackAction>,
}

impl CommandQueue {
    pub fn new() -> (r: Self)
        ensures
            r.items@.len() == 0,
    {
        CommandQueue { items: Vec::new() }
    }

    /// Enqueues one command at the back.
    pub fn send(&mut self, a: PlaybackAction)
        ensures
            final(self).items@ == old(self).items@.push(a),
    {
        self.items.push(a);
    }

    /// Dequeues the oldest command, if any.
    pub fn recv(&mut self) -> (r: Option<PlaybackAction>)
        ensures
            (match r {
                Some(a) => old(self).items@.len() > 0 && a == old(self).items@[0]
                    && final(self).items@ == old(self).items@.drop_first(),
                None => old(self).items@.len() == 0 && final(self).items@ == old(self).items@,
            }),
    {
        if self.items.len() == 0 {
            None
        } else {
            let a = self.items.remove(0);
            proof {
                assert(final(self).items@ =~= old(self).items@.drop_first());
            }
            Some(a)
        }
    }

    pub fn len(&self) -> (r: usize)
        ensures
            r == self.items@.len(),
    {
        self.items.len()
    }
}

/// Serialization law: two commands enqueued one after the other — from any
/// two sinks — stand in the queue in enqueue order, behind everything
/// already queued; neither is lost and nothing stands between them.
pub proof fn lemma_command_serialization(q: Seq<PlaybackAction>, a: PlaybackAction, b: PlaybackAction)
    ensures
        q.push(a).push(b).len() == q.len() + 2,
        q.push(a).push(b)[q.len() as int] == a,
        q.push(a).push(b)[q.len() as int + 1] == b,
        forall|j: int| 0 <= j < q.len() ==> q.push(a).push(b)[j] == q[j],
{
}

/// Readiness of an asynchronously constructed sink. `Unavailable` is
/// terminal: a failed handshake is logged and the hub goes on without the
/// sink.
#[derive(Clone, Copy, PartialEq, Eq, Structural, Debug)]
pub enum SinkStatus {
    Constructing,
    Ready,
    Unavailable,
}

/// One call for the platform layer to perform against the session broker.
pub enum MprisCall {
    SetPlaybackStatus(PlaybackStatus),
    SetLoopStatus(LoopStatus),
    /// An absolute position, in microseconds.
    SetPositionMicros(i64),
    /// An absolute position, in whole seconds.
    SetPositionSecs(i64),
    SetMetadata(MprisMetadata),
    Next,
    Previous,
}

/// The metadata block a media item exposes over the session broker.
pub struct MprisMetadata {
    /// The resolved title, or a placeholder: the session always has one.
    pub title: String,
    pub artist: Option<String>,
    pub album: Option<String>,
    /// Track length in microseconds; absent when the duration is unknown.
    pub length_micros: Option<i64>,
    /// `file://` URI of the on-disk artwork copy, when one exists.
    pub art_url: Option<String>,
}

/// Mathematical image of an `MprisMetadata`.
pub ghost struct MprisMetadataView {
    pub title: Seq<char>,
    pub artist: Option<Seq<char>>,
    pub album: Option<Seq<char>>,
    pub length_micros: Option<i64>,
    pub art_url: Option<Seq<char>>,
}

impl View for MprisMetadata {
    type V = MprisMetadataView;

    open spec fn view(&self) -> MprisMetadataView {
        MprisMetadataView {
            title: self.title@,
            artist: self.artist.deep_view(),
            album: self.album.deep_view(),
            length_micros: self.length_micros,
            art_url: self.art_url.deep_view(),
        }
    }
}

/// Track length in microseconds: absent for the zero "duration unknown"
/// sentinel and for durations the protocol's integer cannot carry.
pub open spec fn spec_length_micros(d: u64) -> Option<i64> {
    if d == 0 {
        None
    } else if d <= 9_223_372_036_854 {
        Some((d * 1_000_000) as i64)
    } else {
        None
    }
}

/// The metadata block for a song, given the `file://`-style URI of its
/// on-disk artwork copy when one exists.
pub open spec fn spec_metadata_for_song(s: SongView, art_url: Option<Seq<char>>) -> MprisMetadataView {
    (MprisMetadataView {
        title: match s.data.title {
            Some(t) => t,
            None => "Unknown title"@,
        },
        artist: s.data.artist,
        album: s.data.album,
        length_micros: spec_length_micros(s.data.duration),
        art_url: art_url,
    })
}

/// The artwork URL a song exposes over the session broker: present
/// exactly when the item's cached artwork has a persisted on-disk copy;
/// then it is the file URI of that copy.
pub open spec fn spec_art_url_for(data: SongDataView, entries: Seq<Artwork>) -> Option<Seq<char>> {
    match data.cover_art {
        Some(h) => if h < entries.len() {
            match entries[h as int].disk_cache_path {
                Some(p) => Some("file://"@ + p@),
                None => None,
            }
        } else {
            None
        },
        None => None,
    }
}

/// Derives a song's artwork URL from the cache, as `spec_art_url_for`
/// states it.
pub fn art_url_for_song(song: &Song, cache: &ArtworkCache) -> (r: Option<String>)
    ensures
        r.deep_view() == spec_art_url_for(song@.data, cache.entries@),
{
    match song.cover_art() {
        Some(h) => {
            if h < cache.len() {
                match &cache.artwork(h).disk_cache_path {
                    Some(p) => {
                        let mut u = String::from_str("file://");
                        u.append(p.as_str());
                        Some(u)
                    },
                    None => None,
                }
            } else {
                None
            }
        },
        None => None,
    }
}

/// Assembles the metadata block the session broker is given for a song.
pub fn metadata_for_song(song: &Song, art_url: Option<String>) -> (r: MprisMetadata)
    ensures
        r@ == spec_metadata_for_song(song@, art_url.deep_view()),
{
    let length_micros: Option<i64> = if song.duration() == 0 {
        None
    } else if song.duration() <= 9_223_372_036_854 {
        Some((song.duration() * 1_000_000) as i64)
    } else {
        None
    };
    MprisMetadata {
        title: song.title(),
        artist: crate::song::clone_opt_string(&song.data.artist),
        album: crate::song::clone_opt_string(&song.data.album),
        length_micros,
        art_url,
    }
}

/// The desktop media-session sink. Construction is asynchronous: the
/// broker handshake runs elsewhere, and until `complete_construction`
/// flips the status every outbound update is dropped, never queued and
/// never blocked on. Each method returns the broker call to perform, or
/// `None` while the sink cannot accept one.
pub struct MprisController {
    pub status: SinkStatus,
    /// The last song handed to the sink, kept for re-exposure.
    pub song: Option<Song>,
}

impl MprisController {
    /// A sink whose registration handshake has just been started.
    pub fn new() -> (r: Self)
        ensures
            r.status is Constructing,
            r.song is None,
    {
        MprisController { status: SinkStatus::Constructing, song: None }
    }

    /// The handshake finished: the sink is ready, or — on a timeout or a
    /// broker error — permanently unavailable.
    pub fn complete_construction(&mut self, ok: bool)
        requires
            old(self).status is Constructing,
        ensures
            final(self).status == (if ok {
                SinkStatus::Ready
            } else {
                SinkStatus::Unavailable
            }),
            final(self).song == old(self).song,
    {
        self.status = if ok {
            SinkStatus::Ready
        } else {
            SinkStatus::Unavailable
        };
    }

    pub fn is_ready(&self) -> (r: bool)
        ensures
            r == (self.status is Ready),
    {
        matches!(self.status, SinkStatus::Ready)
    }

    pub fn stop(&self) -> (r: Option<MprisCall>)
        ensures
            r == (if self.status is Ready {
                Some(MprisCall::SetPlaybackStatus(PlaybackStatus::Stopped))
            } else {
                None::<MprisCall>
            }),
    {
        if self.is_ready() {
            Some(MprisCall::SetPlaybackStatus(PlaybackStatus::Stopped))
        } else {
            None
        }
    }

    pub fn play(&self) -> (r: Option<MprisCall>)
        ensures
            r == (if self.status is Ready {
                Some(MprisCall::SetPlaybackStatus(PlaybackStatus::Playing))
            } else {
                None::<MprisCall>
            }),
    {
        if self.is_ready() {
            Some(MprisCall::SetPlaybackStatus(PlaybackStatus::Playing))
        } else {
            None
        }
    }

    pub fn pause(&self) -> (r: Option<MprisCall>)
        ensures
            r == (if self.status is Ready {
                Some(MprisCall::SetPlaybackStatus(PlaybackStatus::Paused))
            } else {
                None::<MprisCall>
            }),
    {
        if self.is_ready() {
            Some(MprisCall::SetPlaybackStatus(PlaybackStatus::Paused))
        } else {
            None
        }
    }

    pub fn skip(&self) -> (r: Option<MprisCall>)
        ensures
            r == (if self.status is Ready {
                Some(MprisCall::Next)
            } else {
                None::<MprisCall>
            }),
    {
        if self.is_ready() {
            Some(MprisCall::Next)
        } else {
            None
        }
    }

    pub fn previous(&self) -> (r: Option<MprisCall>)
        ensures
            r == (if self.status is Ready {
                Some(MprisCall::Previous)
            } else {
                None::<MprisCall>
            }),
    {
        if self.is_ready() {
            Some(MprisCall::Previous)
        } else {
            None
        }
    }

    /// Seek to an absolute position given in microseconds.
    pub fn seek(&self, position: i64) -> (r: Option<MprisCall>)
        ensures
            r == (if self.status is Ready {
                Some(MprisCall::SetPositionMicros(position))
            } else {
                None::<MprisCall>
            }),
    {
        if self.is_ready() {
            Some(MprisCall::SetPositionMicros(position))
        } else {
            None
        }
    }

    pub fn update_repeat_mode(&self, repeat_mode: RepeatMode) -> (r: Option<MprisCall>)
        ensures
            r == (if self.status is Ready {
                Some(MprisCall::SetLoopStatus(spec_loop_status_for(repeat_mode)))
            } else {
                None::<MprisCall>
            }),
    {
        if self.is_ready() {
            Some(MprisCall::SetLoopStatus(loop_status_for(repeat_mode)))
        } else {
            None
        }
    }

    /// Remembers the song and, when ready, exposes its metadata block.
    pub fn update_song(&mut self, song: &Song, art_url: Option<String>) -> (r: Option<
        MprisMetadata,
    >)
        ensures
            final(self).status == old(self).status,
            (match final(self).song {
                Some(s) => s@ == song@,
                None => false,
            }),
            (match r {
                Some(m) => old(self).status is Ready && m@ == spec_metadata_for_song(
                    song@,
                    art_url.deep_view(),
                ),
                None => !(old(self).status is Ready),
            }),
    {
        self.song = Some(song.clone());
        if self.is_ready() {
            Some(metadata_for_song(song, art_url))
        } else {
            None
        }
    }

    /// Like `update_song`, with the artwork URL derived from the cache:
    /// the metadata block carries a URL exactly when the song's cached
    /// artwork has a persisted on-disk copy.
    pub fn update_song_cached(&mut self, song: &Song, cache: &ArtworkCache) -> (r: Option<
        MprisMetadata,
    >)
        ensures
            final(self).status == old(self).status,
            (match final(self).song {
                Some(s) => s@ == song@,
                None => false,
            }),
            (match r {
                Some(m) => old(self).status is Ready && m@ == spec_metadata_for_song(
                    song@,
                    spec_art_url_for(song@.data, cache.entries@),
                ),
                None => !(old(self).status is Ready),
            }),
    {
        let url = art_url_for_song(song, cache);
        self.update_song(song, url)
    }

    /// The capability interface's transport-state update.
    pub fn set_playback_state(&self, state: &PlaybackState) -> (r: Option<MprisCall>)
        ensures
            r == (if self.status is Ready {
                Some(MprisCall::SetPlaybackStatus(spec_playback_status_for(*state)))
            } else {
                None::<MprisCall>
            }),
    {
        if self.is_ready() {
            Some(MprisCall::SetPlaybackStatus(playback_status_for(*state)))
        } else {
            None
        }
    }

    /// The capability interface's position update, in whole seconds.
    pub fn set_position(&self, position: u64) -> (r: Option<MprisCall>)
        requires
            position <= i64::MAX as u64,
        ensures
            r == (if self.status is Ready {
                Some(MprisCall::SetPositionSecs(position as i64))
            } else {
                None::<MprisCall>
            }),
    {
        if self.is_ready() {
            Some(MprisCall::SetPositionSecs(position as i64))
        } else {
            None
        }
    }
}

} // verus!
