//! Metadata resolution: from what a file yielded — its display name, its
//! parsed tag containers — to a fully described media item.
//!
//! The chain never fails: tags are preferred, the file name is the fallback,
//! and a file that yielded nothing still becomes a playable placeholder.

use vstd::prelude::*;
use vstd::string::StrSliceExecFns;

use crate::hashing::digest_hex;
use crate::hashing::sha256_of;
use crate::hashing::spec_hex;
use crate::song::Song;
use crate::song::SongData;
use crate::song::SongDataView;
use crate::song::spec_default_song_data;
use crate::song::spec_equals;
use crate::tags::ParsedFile;
use crate::tags::ParsedFileView;
use crate::tags::ParsedTag;
use crate::tags::ParsedTagView;
use crate::tags::parsed_of;
use crate::tags::spec_opt_file_view;
use crate::tags::spec_opt_tag_view;
use crate::tags::spec_tag_views;

verus! {

/// Index of the last `.` in a name, or -1 when there is none.
pub open spec fn spec_last_dot(s: Seq<char>) -> int
    decreases s.len(),
{
    if s.len() == 0 {
        -1
    } else if s.last() == '.' {
        s.len() - 1
    } else {
        spec_last_dot(s.drop_last())
    }
}

/// The file name without its extension: everything before the last `.`,
/// unless that dot leads the name or there is none — then the whole name.
pub open spec fn spec_file_stem(s: Seq<char>) -> Seq<char> {
    let d = spec_last_dot(s);
    if d <= 0 {
        s
    } else {
        s.take(d)
    }
}

/// The stem of a file name, as `spec_file_stem` states it.
pub fn file_stem(name: &str) -> (r: String)
    ensures
        r@ == spec_file_stem(name@),
{
    let n = name.unicode_len();
    let mut j: usize = n;
    proof {
        assert(name@.take(n as int) =~= name@);
    }
    while j > 0
        invariant
            j <= n,
            n == name@.len(),
            spec_last_dot(name@) == spec_last_dot(name@.take(j as int)),
        decreases j,
    {
        let c = name.get_char(j - 1);
        if c == '.' {
            proof {
                assert(name@.take(j as int).last() == name@[j - 1]);
            }
            if j - 1 == 0 {
                return String::from_str(name);
            } else {
                let stem = name.substring_char(0, j - 1);
                proof {
                    assert(name@.subrange(0, j - 1) =~= name@.take(j - 1));
                }
                return String::from_str(stem);
            }
        }
        proof {
            assert(name@.take(j as int).drop_last() =~= name@.take(j as int - 1));
            assert(name@.take(j as int).last() == name@[j - 1]);
        }
        j = j - 1;
    }
    proof {
        assert(name@.take(0) =~= Seq::<char>::empty());
    }
    String::from_str(name)
}

/// Whether the three-character separator `" - "` stands at index `i`.
pub open spec fn spec_sep_at(s: Seq<char>, i: int) -> bool {
    &&& 0 <= i
    &&& i + 3 <= s.len()
    &&& s[i] == ' '
    &&& s[i + 1] == '-'
    &&& s[i + 2] == ' '
}

/// Index of the first `" - "` in a name, or -1 when there is none.
pub open spec fn spec_find_sep(s: Seq<char>) -> int
    decreases s.len(),
{
    if s.len() < 3 {
        -1
    } else if s[0] == ' ' && s[1] == '-' && s[2] == ' ' {
        0
    } else {
        let r = spec_find_sep(s.drop_first());
        if r < 0 {
            -1
        } else {
            r + 1
        }
    }
}

proof fn lemma_find_sep_bounds(s: Seq<char>)
    ensures
        spec_find_sep(s) >= 0 ==> spec_sep_at(s, spec_find_sep(s)),
        spec_find_sep(s) >= 0 ==> spec_find_sep(s) + 3 <= s.len(),
    decreases s.len(),
{
    if s.len() < 3 {
    } else if s[0] == ' ' && s[1] == '-' && s[2] == ' ' {
    } else {
        lemma_find_sep_bounds(s.drop_first());
    }
}

fn find_sep(s: &str) -> (r: Option<usize>)
    ensures
        (match r {
            Some(i) => spec_find_sep(s@) == i,
            None => spec_find_sep(s@) == -1,
        }),
{
    let n = s.unicode_len();
    if n < 3 {
        return None;
    }
    let mut i: usize = 0;
    proof {
        assert(s@.skip(0) =~= s@);
    }
    while i <= n - 3
        invariant
            n == s@.len(),
            3 <= n,
            i <= n,
            spec_find_sep(s@) == (if spec_find_sep(s@.skip(i as int)) >= 0 {
                i + spec_find_sep(s@.skip(i as int))
            } else {
                -1
            }),
        decreases n - i,
    {
        let c0 = s.get_char(i);
        let c1 = s.get_char(i + 1);
        let c2 = s.get_char(i + 2);
        proof {
            assert(s@.skip(i as int)[0] == s@[i as int]);
            assert(s@.skip(i as int)[1] == s@[i as int + 1]);
            assert(s@.skip(i as int)[2] == s@[i as int + 2]);
        }
        if c0 == ' ' && c1 == '-' && c2 == ' ' {
            proof {
                assert(spec_find_sep(s@.skip(i as int)) == 0);
            }
            return Some(i);
        }
        proof {
            assert(s@.skip(i as int).drop_first() =~= s@.skip(i as int + 1));
        }
        i = i + 1;
    }
    proof {
        assert(s@.skip(i as int).len() < 3);
    }
    None
}

/// What the file-name fallback yields from a stem: the parts around the
/// first `" - "` as artist and title; without a separator, the whole stem
/// becomes the title and no artist is derived.
pub open spec fn spec_split_stem(stem: Seq<char>) -> (Option<Seq<char>>, Option<Seq<char>>) {
    let i = spec_find_sep(stem);
    if i >= 0 {
        (Some(stem.take(i)), Some(stem.skip(i + 3)))
    } else {
        (None, Some(stem))
    }
}

/// Splits a stem on the first `" - "`, as `spec_split_stem` states it.
pub fn split_stem(stem: &str) -> (r: (Option<String>, Option<String>))
    ensures
        r.0.deep_view() == spec_split_stem(stem@).0,
        r.1.deep_view() == spec_split_stem(stem@).1,
{
    match find_sep(stem) {
        Some(i) => {
            proof {
                lemma_find_sep_bounds(stem@);
            }
            let artist = stem.substring_char(0, i);
            let n = stem.unicode_len();
            let title = stem.substring_char(i + 3, n);
            proof {
                assert(stem@.subrange(0, i as int) =~= stem@.take(i as int));
                assert(stem@.subrange(i + 3, n as int) =~= stem@.skip(i + 3));
            }
            (Some(String::from_str(artist)), Some(String::from_str(title)))
        },
        None => (None, Some(String::from_str(stem))),
    }
}

/// The byte string the fingerprint hashes: display name, then each
/// available field in order, absent fields simply omitted.
pub open spec fn spec_opt_chars(o: Option<Seq<char>>) -> Seq<char> {
    match o {
        Some(s) => s,
        None => Seq::empty(),
    }
}

/// Hash input of a fingerprint, as a character string.
pub open spec fn spec_fingerprint_input(
    dn: Seq<char>,
    artist: Option<Seq<char>>,
    title: Option<Seq<char>>,
    album: Option<Seq<char>>,
) -> Seq<char> {
    dn + spec_opt_chars(artist) + spec_opt_chars(title) + spec_opt_chars(album)
}

/// The fingerprint: lowercase hex of the SHA-256 digest of the UTF-8 bytes
/// of the hash input. A pure function of display name and available fields,
/// so identical fields collide by design.
pub open spec fn spec_fingerprint(
    dn: Seq<char>,
    artist: Option<Seq<char>>,
    title: Option<Seq<char>>,
    album: Option<Seq<char>>,
) -> Seq<char> {
    spec_hex(sha256_of(vstd::utf8::encode_utf8(spec_fingerprint_input(dn, artist, title, album))))
}

/// Computes the fingerprint, as `spec_fingerprint` states it.
pub fn fingerprint(
    display_name: &str,
    artist: &Option<String>,
    title: &Option<String>,
    album: &Option<String>,
) -> (r: String)
    ensures
        r@ == spec_fingerprint(
            display_name@,
            artist.deep_view(),
            title.deep_view(),
            album.deep_view(),
        ),
{
    let mut input = String::from_str(display_name);
    match artist {
        Some(a) => input.append(a.as_str()),
        None => (),
    }
    match title {
        Some(t) => input.append(t.as_str()),
        None => (),
    }
    match album {
        Some(al) => input.append(al.as_str()),
        None => (),
    }
    let bytes = input.as_str().as_bytes();
    digest_hex(bytes)
}

/// The fields chosen out of a file's tag containers.
pub struct Chosen {
    pub artist: Option<String>,
    pub title: Option<String>,
    pub album: Option<String>,
    pub picture: Option<Vec<u8>>,
}

/// Mathematical image of a `Chosen`.
pub ghost struct ChosenView {
    pub artist: Option<Seq<char>>,
    pub title: Option<Seq<char>>,
    pub album: Option<Seq<char>>,
    pub picture: Option<Seq<u8>>,
}

impl View for Chosen {
    type V = ChosenView;

    open spec fn view(&self) -> ChosenView {
        ChosenView {
            artist: self.artist.deep_view(),
            title: self.title.deep_view(),
            album: self.album.deep_view(),
            picture: self.picture.deep_view(),
        }
    }
}

/// Nothing chosen yet.
pub open spec fn spec_empty_chosen() -> ChosenView {
    (ChosenView { artist: None, title: None, album: None, picture: None })
}

/// One scan step over the remaining tag containers, in file order. Each
/// container overwrites artist and title outright, and the scan stops at
/// the first container yielding both; album and picture merge
/// opportunistically — a value found in an earlier container survives a
/// later container that lacks one.
pub open spec fn spec_scan(tags: Seq<ParsedTagView>, cur: ChosenView) -> ChosenView
    decreases tags.len(),
{
    if tags.len() == 0 {
        cur
    } else {
        let t = tags.first();
        let nxt = ChosenView {
            artist: t.artist,
            title: t.title,
            album: if t.album is Some {
                t.album
            } else {
                cur.album
            },
            picture: if t.picture is Some {
                t.picture
            } else {
                cur.picture
            },
        };
        if t.artist is Some && t.title is Some {
            nxt
        } else {
            spec_scan(tags.drop_first(), nxt)
        }
    }
}

/// What a parsed file's containers yield: the primary tag when the format
/// has one, otherwise the scan over all containers.
pub open spec fn spec_choose(primary: Option<ParsedTagView>, tags: Seq<ParsedTagView>) -> ChosenView {
    match primary {
        Some(p) => ChosenView { artist: p.artist, title: p.title, album: p.album, picture: p.picture },
        None => spec_scan(tags, spec_empty_chosen()),
    }
}

pub(crate) fn clone_opt_bytes(o: &Option<Vec<u8>>) -> (r: Option<Vec<u8>>)
    ensures
        r.deep_view() == o.deep_view(),
{
    match o {
        Some(v) => {
            let c = v.clone();
            proof {
                assert(c@ =~= v@);
            }
            Some(c)
        },
        None => None,
    }
}

fn chosen_from_tag(t: &ParsedTag) -> (r: Chosen)
    ensures
        r@.artist == t@.artist,
        r@.title == t@.title,
        r@.album == t@.album,
        r@.picture == t@.picture,
{
    Chosen {
        artist: crate::song::clone_opt_string(&t.artist),
        title: crate::song::clone_opt_string(&t.title),
        album: crate::song::clone_opt_string(&t.album),
        picture: clone_opt_bytes(&t.picture),
    }
}

/// Chooses the descriptive fields from a file's tag containers, as
/// `spec_choose` states it.
pub fn choose_fields(primary: &Option<ParsedTag>, tags: &Vec<ParsedTag>) -> (r: Chosen)
    ensures
        r@ == spec_choose(spec_opt_tag_view(*primary), spec_tag_views(tags@)),
{
    match primary {
        Some(p) => chosen_from_tag(p),
        None => scan_tags(tags),
    }
}

fn scan_tags(tags: &Vec<ParsedTag>) -> (r: Chosen)
    ensures
        r@ == spec_scan(spec_tag_views(tags@), spec_empty_chosen()),
{
    let mut cur = Chosen { artist: None, title: None, album: None, picture: None };
    let n = tags.len();
    let mut i: usize = 0;
    proof {
        assert(spec_tag_views(tags@).skip(0) =~= spec_tag_views(tags@));
    }
    while i < n
        invariant
            n == tags@.len(),
            i <= n,
            spec_scan(spec_tag_views(tags@), spec_empty_chosen()) == spec_scan(
                spec_tag_views(tags@).skip(i as int),
                cur@,
            ),
        decreases n - i,
    {
        let t = &tags[i];
        let album = if t.album.is_some() {
            crate::song::clone_opt_string(&t.album)
        } else {
            crate::song::clone_opt_string(&cur.album)
        };
        let pic = if t.picture.is_some() {
            clone_opt_bytes(&t.picture)
        } else {
            clone_opt_bytes(&cur.picture)
        };
        let nxt = Chosen {
            artist: crate::song::clone_opt_string(&t.artist),
            title: crate::song::clone_opt_string(&t.title),
            album,
            picture: pic,
        };
        proof {
            assert(spec_tag_views(tags@).skip(i as int).first() == tags@[i as int]@);
            assert(spec_tag_views(tags@).skip(i as int).drop_first() =~= spec_tag_views(
                tags@,
            ).skip(i as int + 1));
        }
        if nxt.artist.is_some() && nxt.title.is_some() {
            proof {
                let vs = spec_tag_views(tags@).skip(i as int);
                assert(vs.len() > 0);
                assert(vs.first() == tags@[i as int]@);
                assert(vs.first().artist is Some && vs.first().title is Some);
                assert(spec_scan(vs, cur@) == nxt@);
                assert(spec_scan(spec_tag_views(tags@), spec_empty_chosen()) == nxt@);
            }
            return nxt;
        }
        cur = nxt;
        i = i + 1;
    }
    cur
}

/// The fields the whole resolution chain settles on, before the file-name
/// fallback.
pub open spec fn spec_resolve_fields(parsed: Option<ParsedFileView>) -> ChosenView {
    match parsed {
        Some(p) => spec_choose(p.primary, p.tags),
        None => spec_empty_chosen(),
    }
}

/// The fallback applies when the containers yielded neither artist nor
/// title: the file name is all that is left to go by.
pub open spec fn spec_needs_fallback(c: ChosenView) -> bool {
    c.artist is None && c.title is None
}

/// The artist after the fallback: from the tags when they yielded anything,
/// else the part of the file-name stem before `" - "`.
pub open spec fn spec_resolved_artist(c: ChosenView, dn: Option<Seq<char>>) -> Option<Seq<char>> {
    if spec_needs_fallback(c) {
        match dn {
            Some(d) => spec_split_stem(spec_file_stem(d)).0,
            None => None,
        }
    } else {
        c.artist
    }
}

/// The title after the fallback: from the tags when they yielded anything,
/// else from the file-name stem.
pub open spec fn spec_resolved_title(c: ChosenView, dn: Option<Seq<char>>) -> Option<Seq<char>> {
    if spec_needs_fallback(c) {
        match dn {
            Some(d) => spec_split_stem(spec_file_stem(d)).1,
            None => None,
        }
    } else {
        c.title
    }
}

/// The complete resolution: what a URI's item looks like given the file's
/// display name and its parsed tag containers. Total — every combination
/// of available and missing parts yields a usable item. No artwork is
/// attached here; that is the cache's step.
pub open spec fn spec_resolve_song(
    uri: Seq<char>,
    dn: Option<Seq<char>>,
    parsed: Option<ParsedFileView>,
) -> SongDataView {
    let c = spec_resolve_fields(parsed);
    let artist = spec_resolved_artist(c, dn);
    let title = spec_resolved_title(c, dn);
    (SongDataView {
        artist: artist,
        title: title,
        album: c.album,
        cover_art: None,
        cover_uuid: None,
        uuid: match dn {
            Some(d) => Some(spec_fingerprint(d, artist, title, c.album)),
            None => None,
        },
        duration: match parsed {
            Some(p) => p.duration,
            None => 0,
        },
        uri: uri,
    })
}

/// The picture blob the resolution hands to the artwork cache.
pub open spec fn spec_resolve_picture(parsed: Option<ParsedFileView>) -> Option<Seq<u8>> {
    spec_resolve_fields(parsed).picture
}

impl SongData {
    /// Builds the item from plain parsed parts. Fully specified: the result
    /// is exactly `spec_resolve_song`, and the returned blob is the picture
    /// the containers yielded, for the artwork cache to deduplicate.
    pub fn from_parsed(uri: &str, display_name: Option<&str>, parsed: &Option<ParsedFile>) -> (r: (
        SongData,
        Option<Vec<u8>>,
    ))
        ensures
            r.0@ == spec_resolve_song(uri@, display_name.deep_view(), spec_opt_file_view(*parsed)),
            r.1.deep_view() == spec_resolve_picture(spec_opt_file_view(*parsed)),
    {
        let c = match parsed {
            Some(p) => choose_fields(&p.primary, &p.tags),
            None => Chosen { artist: None, title: None, album: None, picture: None },
        };
        let Chosen { artist: ca, title: ct, album, picture } = c;
        let needs_fallback = ca.is_none() && ct.is_none();
        let (artist, title) = if needs_fallback {
            match display_name {
                Some(d) => {
                    let stem = file_stem(d);
                    split_stem(stem.as_str())
                },
                None => (None, None),
            }
        } else {
            (ca, ct)
        };
        let uuid = match display_name {
            Some(d) => Some(fingerprint(d, &artist, &title, &album)),
            None => None,
        };
        let duration: u64 = match parsed {
            Some(p) => p.duration,
            None => 0,
        };
        let data = SongData {
            artist,
            title,
            album,
            cover_art: None,
            cover_uuid: None,
            uuid,
            duration,
            uri: String::from_str(uri),
        };
        (data, picture)
    }

    /// Resolves a URI from what its file yielded: the display name and the
    /// raw bytes, either of which the file system may have refused. The
    /// result is exactly the resolution of what the tag reader parses out
    /// of those bytes — `parsed_of` names that outcome. Total: malformed
    /// bytes, zero-length files and truncated containers all land in some
    /// parse outcome, never in a panic.
    pub fn from_uri(uri: &str, display_name: Option<&str>, data: Option<&Vec<u8>>) -> (r: (
        SongData,
        Option<Vec<u8>>,
    ))
        ensures
            r.0@ == spec_resolve_song(uri@, display_name.deep_view(), (match data {
                Some(d) => parsed_of(d@),
                None => None,
            })),
            r.1.deep_view() == spec_resolve_picture((match data {
                Some(d) => parsed_of(d@),
                None => None,
            })),
            (match display_name {
                Some(d) => r.0@.uuid == Some(
                    spec_fingerprint(d@, r.0@.artist, r.0@.title, r.0@.album),
                ),
                None => r.0@.uuid is None,
            }),
    {
        let parsed = match data {
            Some(bytes) => crate::tags::parse_file_bytes(bytes.as_slice()),
            None => None,
        };
        SongData::from_parsed(uri, display_name, &parsed)
    }
}

impl Song {
    /// Resolves a URI into a fresh item. `Ok` exactly when what the bytes
    /// resolve to is not the placeholder item — so nothing readable at all
    /// under the placeholder's own URI is the only rejection; every other
    /// byte sequence yields a playable item.
    pub fn from_uri(uri: &str, display_name: Option<&str>, data: Option<&Vec<u8>>) -> (r: Result<
        Song,
        &'static str,
    >)
        ensures
            (match r {
                Ok(s) => {
                    &&& s@.data == spec_resolve_song(uri@, display_name.deep_view(), (match data {
                        Some(d) => parsed_of(d@),
                        None => None,
                    }))
                    &&& !s@.playing
                    &&& !s@.selected
                    &&& !spec_equals(s@.data, spec_default_song_data())
                },
                Err(e) => e@ == "Invalid song"@,
            }),
            r is Ok <==> !spec_equals(
                spec_resolve_song(uri@, display_name.deep_view(), (match data {
                    Some(d) => parsed_of(d@),
                    None => None,
                })),
                spec_default_song_data(),
            ),
    {
        let (song_data, _picture) = SongData::from_uri(uri, display_name, data);
        let res = Song::new(song_data);
        let default = Song::empty();
        if res.equals(&default) {
            Err("Invalid song")
        } else {
            Ok(res)
        }
    }
}

/// Dedup law: two resolutions with the same display name whose resolved
/// artist, title and album agree produce the same fingerprint — identical
/// re-encodes of one file collapse onto one identity, whatever their URIs.
pub proof fn lemma_fingerprint_dedup(
    uri1: Seq<char>,
    uri2: Seq<char>,
    dn: Seq<char>,
    p1: Option<ParsedFileView>,
    p2: Option<ParsedFileView>,
)
    requires
        spec_resolve_song(uri1, Some(dn), p1).artist == spec_resolve_song(uri2, Some(dn), p2).artist,
        spec_resolve_song(uri1, Some(dn), p1).title == spec_resolve_song(uri2, Some(dn), p2).title,
        spec_resolve_song(uri1, Some(dn), p1).album == spec_resolve_song(uri2, Some(dn), p2).album,
    ensures
        spec_resolve_song(uri1, Some(dn), p1).uuid == spec_resolve_song(uri2, Some(dn), p2).uuid,
        crate::song::spec_equals(
            spec_resolve_song(uri1, Some(dn), p1),
            spec_resolve_song(uri2, Some(dn), p2),
        ),
{
}

} // verus!

