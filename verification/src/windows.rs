//! Desktop-session services modeled as plain state.
//!
//! The power manager and the media session track what the player has asked
//! of the operating system — sleep inhibited or not, which metadata and
//! transport state are exposed. The OS calls that realize these requests
//! are platform work performed by the application shell; on platforms
//! without them every request is a recorded no-op, which is what these
//! contracts state.

use vstd::prelude::*;

verus! {

/// Tracks whether the player is holding the system awake for playback.
pub struct WindowsPowerManager {
    pub sleep_prevented: bool,
}

impl WindowsPowerManager {
    pub fn new() -> (r: Self)
        ensures
            !r.sleep_prevented,
    {
        WindowsPowerManager { sleep_prevented: false }
    }

    /// Asks the system to stay awake while music plays.
    pub fn prevent_sleep(&mut self)
        ensures
            final(self).sleep_prevented,
    {
        self.sleep_prevented = true;
    }

    /// Releases the wake hold.
    pub fn allow_sleep(&mut self)
        ensures
            !final(self).sleep_prevented,
    {
        self.sleep_prevented = false;
    }
}

/// The platform's music folder; none is known without the shell lookup,
/// which the application layer performs where it exists.
pub fn get_music_folder() -> (r: Option<String>)
    ensures
        r is None,
{
    None
}

/// Registers the player as a handler for music files; nothing to do here,
/// so it succeeds.
pub fn register_file_associations() -> (r: Result<(), ()>)
    ensures
        r is Ok,
{
    Ok(())
}

/// The per-user application data directory; none is known without the
/// platform's environment lookup, which the application layer performs.
pub fn get_app_data_dir() -> (r: Option<String>)
    ensures
        r is None,
{
    None
}

/// Tracks what the player exposes through the system media session.
pub struct WindowsMediaSession {
    pub title: Option<String>,
    pub artist: Option<String>,
    pub album: Option<String>,
    pub playing: bool,
}

impl WindowsMediaSession {
    pub fn new() -> (r: Self)
        ensures
            r.title is None,
            r.artist is None,
            r.album is None,
            !r.playing,
    {
        WindowsMediaSession { title: None, artist: None, album: None, playing: false }
    }

    /// Exposes a track's descriptive fields; transport state is untouched.
    pub fn update_metadata(&mut self, title: &str, artist: &str, album: &str)
        ensures
            final(self).title.deep_view() == Some(title@),
            final(self).artist.deep_view() == Some(artist@),
            final(self).album.deep_view() == Some(album@),
            final(self).playing == old(self).playing,
    {
        self.title = Some(String::from_str(title));
        self.artist = Some(String::from_str(artist));
        self.album = Some(String::from_str(album));
    }

    /// Exposes the transport state; metadata is untouched.
    pub fn set_playback_state(&mut self, playing: bool)
        ensures
            final(self).playing == playing,
            final(self).title == old(self).title,
            final(self).artist == old(self).artist,
            final(self).album == old(self).album,
    {
        self.playing = playing;
    }
}

} // verus!
