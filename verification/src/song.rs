//! Media items: the durable identity and metadata of one playable file.
//!
//! A `SongData` carries the descriptive fields and the fingerprint resolved
//! from a file; a `Song` adds the two mutable presentation flags. Equality
//! goes by fingerprint when both sides have one, else by URI, and never
//! consults the flags.

use vstd::prelude::*;

use crate::artwork::ArtworkCache;
use crate::palette::Bitmap;
use crate::palette::Color;

verus! {

/// Mathematical image of a `SongData`.
pub ghost struct SongDataView {
    pub artist: Option<Seq<char>>,
    pub title: Option<Seq<char>>,
    pub album: Option<Seq<char>>,
    pub cover_art: Option<usize>,
    pub cover_uuid: Option<Seq<char>>,
    pub uuid: Option<Seq<char>>,
    pub duration: u64,
    pub uri: Seq<char>,
}

/// Descriptive fields and identity of one media file. Set once at
/// resolution; never mutated afterwards.
pub struct SongData {
    pub artist: Option<String>,
    pub title: Option<String>,
    pub album: Option<String>,
    /// Handle into the artwork cache, when the file had embedded artwork.
    pub cover_art: Option<usize>,
    /// The cache's digest string for that artwork.
    pub cover_uuid: Option<String>,
    /// The fingerprint: hex SHA-256 over display name and available tags;
    /// `None` when the file's attributes could not be read.
    pub uuid: Option<String>,
    /// Stream duration in whole seconds; 0 means "no duration known".
    pub duration: u64,
    pub uri: String,
}

impl View for SongData {
    type V = SongDataView;

    open spec fn view(&self) -> SongDataView {
        SongDataView {
            artist: self.artist.deep_view(),
            title: self.title.deep_view(),
            album: self.album.deep_view(),
            cover_art: self.cover_art,
            cover_uuid: self.cover_uuid.deep_view(),
            uuid: self.uuid.deep_view(),
            duration: self.duration,
            uri: self.uri@,
        }
    }
}

pub(crate) fn clone_opt_string(o: &Option<String>) -> (r: Option<String>)
    ensures
        r.deep_view() == o.deep_view(),
{
    match o {
        Some(s) => Some(s.clone()),
        None => None,
    }
}

impl Clone for SongData {
    fn clone(&self) -> (r: Self)
        ensures
            r@ == self@,
    {
        SongData {
            artist: clone_opt_string(&self.artist),
            title: clone_opt_string(&self.title),
            album: clone_opt_string(&self.album),
            cover_art: self.cover_art,
            cover_uuid: clone_opt_string(&self.cover_uuid),
            uuid: clone_opt_string(&self.uuid),
            duration: self.duration,
            uri: self.uri.clone(),
        }
    }
}

impl SongData {
    pub fn artist(&self) -> (r: Option<&str>)
        ensures
            r.deep_view() == self@.artist,
    {
        match &self.artist {
            Some(s) => Some(s.as_str()),
            None => None,
        }
    }

    pub fn title(&self) -> (r: Option<&str>)
        ensures
            r.deep_view() == self@.title,
    {
        match &self.title {
            Some(s) => Some(s.as_str()),
            None => None,
        }
    }

    pub fn album(&self) -> (r: Option<&str>)
        ensures
            r.deep_view() == self@.album,
    {
        match &self.album {
            Some(s) => Some(s.as_str()),
            None => None,
        }
    }

    pub fn uuid(&self) -> (r: Option<&str>)
        ensures
            r.deep_view() == self@.uuid,
    {
        match &self.uuid {
            Some(s) => Some(s.as_str()),
            None => None,
        }
    }

    pub fn cover_uuid(&self) -> (r: Option<&str>)
        ensures
            r.deep_view() == self@.cover_uuid,
    {
        match &self.cover_uuid {
            Some(s) => Some(s.as_str()),
            None => None,
        }
    }

    /// Handle into the artwork cache.
    pub fn cover_art(&self) -> (r: Option<usize>)
        ensures
            r == self@.cover_art,
    {
        self.cover_art
    }

    pub fn duration(&self) -> (r: u64)
        ensures
            r == self@.duration,
    {
        self.duration
    }

    pub fn uri(&self) -> (r: String)
        ensures
            r@ == self@.uri,
    {
        self.uri.clone()
    }

    /// Attaches the artwork handle and digest string the cache assigned
    /// for this item's cover blob. Every other field is untouched.
    pub fn attach_cover(&mut self, handle: usize, uuid: String)
        ensures
            final(self)@ == (SongDataView {
                cover_art: Some(handle),
                cover_uuid: Some(uuid@),
                ..old(self)@
            }),
    {
        self.cover_art = Some(handle);
        self.cover_uuid = Some(uuid);
    }
}

/// The placeholder item: what a URI resolves to when nothing about the file
/// can be read. Mirrored by `SongData::default`.
pub open spec fn spec_default_song_data() -> SongDataView {
    (SongDataView {
        artist: Some("Invalid Artist"@),
        title: Some("Invalid Title"@),
        album: Some("Invalid Album"@),
        cover_art: None,
        cover_uuid: None,
        uuid: None,
        duration: 0,
        uri: "file:///does-not-exist"@,
    })
}

impl Default for SongData {
    fn default() -> (r: Self)
        ensures
            r@ == spec_default_song_data(),
    {
        SongData {
            artist: Some(String::from_str("Invalid Artist")),
            title: Some(String::from_str("Invalid Title")),
            album: Some(String::from_str("Invalid Album")),
            cover_art: None,
            cover_uuid: None,
            uuid: None,
            duration: 0,
            uri: String::from_str("file:///does-not-exist"),
        }
    }
}

/// Mathematical image of a `Song`.
pub ghost struct SongView {
    pub data: SongDataView,
    pub playing: bool,
    pub selected: bool,
}

/// A media item as the player handles it: resolved data plus the two
/// mutable presentation flags. The flags never affect identity.
pub struct Song {
    pub data: SongData,
    pub playing: bool,
    pub selected: bool,
}

impl View for Song {
    type V = SongView;

    open spec fn view(&self) -> SongView {
        SongView { data: self.data@, playing: self.playing, selected: self.selected }
    }
}

impl Clone for Song {
    fn clone(&self) -> (r: Self)
        ensures
            r@ == self@,
    {
        Song { data: self.data.clone(), playing: self.playing, selected: self.selected }
    }
}

/// When two items count as the same media: by fingerprint when both have
/// one, else by URI. The presentation flags play no part.
pub open spec fn spec_equals(a: SongDataView, b: SongDataView) -> bool {
    if a.uuid is Some && b.uuid is Some {
        a.uuid == b.uuid
    } else {
        a.uri == b.uri
    }
}

impl Song {
    /// Wraps resolved data as a fresh item: not playing, not selected.
    pub fn new(data: SongData) -> (r: Self)
        ensures
            r@.data == data@,
            !r@.playing,
            !r@.selected,
    {
        Song { data, playing: false, selected: false }
    }

    /// The placeholder item.
    pub fn empty() -> (r: Self)
        ensures
            r@.data == spec_default_song_data(),
            !r@.playing,
            !r@.selected,
    {
        Song { data: SongData::default(), playing: false, selected: false }
    }

    /// Identity comparison as `spec_equals` states it.
    pub fn equals(&self, other: &Self) -> (r: bool)
        ensures
            r == spec_equals(self@.data, other@.data),
    {
        match (&self.data.uuid, &other.data.uuid) {
            (Some(a), Some(b)) => *a == *b,
            _ => self.data.uri == other.data.uri,
        }
    }

    pub fn uri(&self) -> (r: String)
        ensures
            r@ == self@.data.uri,
    {
        self.data.uri()
    }

    /// The artist for display: the resolved artist, or a placeholder.
    pub fn artist(&self) -> (r: String)
        ensures
            r@ == (match self@.data.artist {
                Some(a) => a,
                None => "Unknown artist"@,
            }),
    {
        match &self.data.artist {
            Some(s) => s.clone(),
            None => String::from_str("Unknown artist"),
        }
    }

    /// The title for display: the resolved title, or a placeholder.
    pub fn title(&self) -> (r: String)
        ensures
            r@ == (match self@.data.title {
                Some(t) => t,
                None => "Unknown title"@,
            }),
    {
        match &self.data.title {
            Some(s) => s.clone(),
            None => String::from_str("Unknown title"),
        }
    }

    /// The album for display: the resolved album, or a placeholder.
    pub fn album(&self) -> (r: String)
        ensures
            r@ == (match self@.data.album {
                Some(a) => a,
                None => "Unknown album"@,
            }),
    {
        match &self.data.album {
            Some(s) => s.clone(),
            None => String::from_str("Unknown album"),
        }
    }

    pub fn cover_uuid(&self) -> (r: Option<String>)
        ensures
            r.deep_view() == self@.data.cover_uuid,
    {
        clone_opt_string(&self.data.cover_uuid)
    }

    pub fn cover_art(&self) -> (r: Option<usize>)
        ensures
            r == self@.data.cover_art,
    {
        self.data.cover_art
    }

    pub fn duration(&self) -> (r: u64)
        ensures
            r == self@.data.duration,
    {
        self.data.duration
    }

    pub fn uuid(&self) -> (r: Option<String>)
        ensures
            r.deep_view() == self@.data.uuid,
    {
        clone_opt_string(&self.data.uuid)
    }

    pub fn playing(&self) -> (r: bool)
        ensures
            r == self@.playing,
    {
        self.playing
    }

    /// Sets the playing flag; returns whether the value changed, so a
    /// caller can skip redundant change notifications. Identity and the
    /// other flag are untouched.
    pub fn set_playing(&mut self, playing: bool) -> (changed: bool)
        ensures
            final(self)@.data == old(self)@.data,
            final(self)@.playing == playing,
            final(self)@.selected == old(self)@.selected,
            changed == (old(self)@.playing != playing),
    {
        let was = self.playing;
        self.playing = playing;
        was != playing
    }

    pub fn selected(&self) -> (r: bool)
        ensures
            r == self@.selected,
    {
        self.selected
    }

    /// Sets the selected flag; returns whether the value changed. Identity
    /// and the other flag are untouched.
    pub fn set_selected(&mut self, selected: bool) -> (changed: bool)
        ensures
            final(self)@.data == old(self)@.data,
            final(self)@.selected == selected,
            final(self)@.playing == old(self)@.playing,
            changed == (old(self)@.selected != selected),
    {
        let was = self.selected;
        self.selected = selected;
        was != selected
    }

    /// Applies a completed resolution to this item in one shot — the way a
    /// background worker hands back the real fields after a placeholder
    /// was shown. Identity fields are replaced; the presentation flags
    /// survive untouched.
    pub fn apply_resolution(&mut self, data: SongData)
        ensures
            final(self)@.data == data@,
            final(self)@.playing == old(self)@.playing,
            final(self)@.selected == old(self)@.selected,
    {
        self.data = data;
    }

    /// "artist album title", the string the search box matches against.
    pub fn search_key(&self) -> (r: String)
        ensures
            r@ == (match self@.data.artist {
                Some(a) => a,
                None => "Unknown artist"@,
            }) + " "@ + (match self@.data.album {
                Some(a) => a,
                None => "Unknown album"@,
            }) + " "@ + (match self@.data.title {
                Some(t) => t,
                None => "Unknown title"@,
            }),
    {
        let mut r = self.artist();
        r.append(" ");
        let al = self.album();
        r.append(al.as_str());
        r.append(" ");
        let t = self.title();
        r.append(t.as_str());
        r
    }
}

impl Song {
    /// The decoded bitmap of this item's artwork, looked up in the cache
    /// it was filed in.
    pub fn cover_texture<'a>(&self, cache: &'a ArtworkCache) -> (r: Option<&'a Bitmap>)
        ensures
            (match self@.data.cover_art {
                Some(h) => if h < cache.entries@.len() {
                    (match r {
                        Some(b) => *b == cache.entries@[h as int].bitmap,
                        None => false,
                    })
                } else {
                    r is None
                },
                None => r is None,
            }),
    {
        match self.data.cover_art {
            Some(h) => if h < cache.len() {
                Some(&cache.artwork(h).bitmap)
            } else {
                None
            },
            None => None,
        }
    }

    /// The palette of this item's artwork. A well-formed cache holds only
    /// decoded images, so the palette handed back is never empty: its
    /// first entry is the primary accent color.
    pub fn cover_palette(&self, cache: &ArtworkCache) -> (r: Option<Vec<Color>>)
        ensures
            (match self@.data.cover_art {
                Some(h) => if h < cache.entries@.len() {
                    (match r {
                        Some(v) => v@ == cache.entries@[h as int].palette@,
                        None => false,
                    })
                } else {
                    r is None
                },
                None => r is None,
            }),
            cache.wf() ==> (match r {
                Some(v) => v@.len() >= 1,
                None => true,
            }),
    {
        match self.data.cover_art {
            Some(h) => if h < cache.len() {
                Some(copy_colors(&cache.artwork(h).palette))
            } else {
                None
            },
            None => None,
        }
    }

    /// The primary accent color of this item's artwork: the first palette
    /// entry. In a well-formed cache every entry's palette is nonempty,
    /// so a valid handle always yields the accent color.
    pub fn cover_color(&self, cache: &ArtworkCache) -> (r: Option<Color>)
        ensures
            (match self@.data.cover_art {
                Some(h) => if h < cache.entries@.len() && cache.entries@[h as int].palette@.len()
                    > 0 {
                    r == Some(cache.entries@[h as int].palette@[0])
                } else {
                    r is None
                },
                None => r is None,
            }),
            cache.wf() ==> (match self@.data.cover_art {
                Some(h) => h < cache.entries@.len() ==> r == Some(
                    cache.entries@[h as int].palette@[0],
                ),
                None => true,
            }),
    {
        match self.data.cover_art {
            Some(h) => if h < cache.len() {
                let pal = &cache.artwork(h).palette;
                if pal.len() > 0 {
                    Some(pal[0])
                } else {
                    None
                }
            } else {
                None
            },
            None => None,
        }
    }

    /// Where a persisted copy of this item's artwork lies on disk, if one
    /// was materialized.
    pub fn cover_cache(&self, cache: &ArtworkCache) -> (r: Option<String>)
        ensures
            (match self@.data.cover_art {
                Some(h) => if h < cache.entries@.len() {
                    r.deep_view() == cache.entries@[h as int].disk_cache_path.deep_view()
                } else {
                    r is None
                },
                None => r is None,
            }),
    {
        match self.data.cover_art {
            Some(h) => if h < cache.len() {
                clone_opt_string(&cache.artwork(h).disk_cache_path)
            } else {
                None
            },
            None => None,
        }
    }
}

fn copy_colors(v: &Vec<Color>) -> (r: Vec<Color>)
    ensures
        r@ == v@,
{
    let n = v.len();
    let mut r: Vec<Color> = Vec::new();
    let mut i: usize = 0;
    while i < n
        invariant
            n == v@.len(),
            i <= n,
            r@ == v@.take(i as int),
        decreases n - i,
    {
        r.push(v[i]);
        proof {
            assert(v@.take(i as int).push(v@[i as int]) =~= v@.take(i + 1));
        }
        i = i + 1;
    }
    proof {
        assert(v@.take(n as int) =~= v@);
    }
    r
}

/// Identity law: items whose fingerprints are both present agree exactly
/// when the fingerprints agree, whatever their URIs or flags; an item
/// without a fingerprint is equal to another exactly when the URIs match.
pub proof fn lemma_equality_by_fingerprint(a: SongDataView, b: SongDataView)
    ensures
        a.uuid is Some && b.uuid is Some ==> (spec_equals(a, b) <==> a.uuid == b.uuid),
        a.uuid is None || b.uuid is None ==> (spec_equals(a, b) <==> a.uri == b.uri),
{
}

/// Flag-independence law: equality never consults `playing` or `selected`.
/// Changing either flag on either side leaves the comparison unchanged.
pub proof fn lemma_equality_ignores_flags(a: SongView, b: SongView, a2: SongView, b2: SongView)
    requires
        a2.data == a.data,
        b2.data == b.data,
    ensures
        spec_equals(a2.data, b2.data) == spec_equals(a.data, b.data),
{
}

} // verus!
