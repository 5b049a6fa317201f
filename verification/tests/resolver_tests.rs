use amberol::hashing::digest_hex;
use amberol::resolver::file_stem;
use amberol::resolver::fingerprint;
use amberol::resolver::split_stem;
use amberol::song::Song;
use amberol::song::SongData;
use amberol::tags::ParsedFile;
use amberol::tags::ParsedTag;

fn tag(
    artist: Option<&str>,
    title: Option<&str>,
    album: Option<&str>,
    picture: Option<&[u8]>,
) -> ParsedTag {
    ParsedTag {
        artist: artist.map(str::to_string),
        title: title.map(str::to_string),
        album: album.map(str::to_string),
        picture: picture.map(|p| p.to_vec()),
    }
}

#[test]
fn file_stem_cases() {
    assert_eq!(file_stem("foo.mp3"), "foo");
    assert_eq!(file_stem("foo"), "foo");
    assert_eq!(file_stem(".hidden"), ".hidden");
    assert_eq!(file_stem("a.tar.gz"), "a.tar");
    assert_eq!(file_stem("trailing."), "trailing");
    assert_eq!(file_stem(""), "");
}

#[test]
fn split_stem_cases() {
    assert_eq!(
        split_stem("Artist - Title"),
        (Some("Artist".to_string()), Some("Title".to_string()))
    );
    // Only the first separator splits.
    assert_eq!(
        split_stem("A - B - C"),
        (Some("A".to_string()), Some("B - C".to_string()))
    );
    assert_eq!(split_stem("NoSeparator"), (None, Some("NoSeparator".to_string())));
    assert_eq!(split_stem(""), (None, Some(String::new())));
}

#[test]
fn fingerprint_is_digest_of_concatenation() {
    let fp = fingerprint(
        "song.mp3",
        &Some("Artist".to_string()),
        &Some("Title".to_string()),
        &Some("Album".to_string()),
    );
    assert_eq!(fp, digest_hex(b"song.mp3ArtistTitleAlbum"));
}

#[test]
fn fingerprint_omits_absent_fields() {
    let fp = fingerprint("song.mp3", &None, &Some("Title".to_string()), &None);
    assert_eq!(fp, digest_hex(b"song.mp3Title"));
}

#[test]
fn fingerprint_dedup_identical_fields() {
    // Identical display name and fields collide by design, whatever the path.
    let a = fingerprint("x.mp3", &Some("A".to_string()), &Some("T".to_string()), &None);
    let b = fingerprint("x.mp3", &Some("A".to_string()), &Some("T".to_string()), &None);
    assert_eq!(a, b);
}

#[test]
fn filename_fallback_round_trip() {
    // A file with no tags and the name "Artist - Title.mp3" yields that
    // artist and title.
    let (data, picture) =
        SongData::from_uri("file:///music/Artist - Title.mp3", Some("Artist - Title.mp3"), None);
    assert_eq!(data.artist(), Some("Artist"));
    assert_eq!(data.title(), Some("Title"));
    assert_eq!(data.album(), None);
    assert_eq!(data.duration(), 0);
    assert!(data.uuid().is_some());
    assert!(picture.is_none());
}

#[test]
fn filename_fallback_without_separator() {
    let (data, _) = SongData::from_uri("file:///m/Single.mp3", Some("Single.mp3"), None);
    assert_eq!(data.artist(), None);
    assert_eq!(data.title(), Some("Single"));
}

#[test]
fn resolve_never_panics_on_garbage() {
    // Zero-length files, random bytes and truncated tag containers all
    // resolve to usable placeholder items.
    let empty: Vec<u8> = Vec::new();
    let (d1, _) = SongData::from_uri("file:///a", Some("a"), Some(&empty));
    assert_eq!(d1.uri(), "file:///a");

    let garbage: Vec<u8> = (0u32..4096).map(|i| (i * 31 % 251) as u8).collect();
    let (d2, _) = SongData::from_uri("file:///b.mp3", Some("b.mp3"), Some(&garbage));
    assert_eq!(d2.uri(), "file:///b.mp3");

    // A truncated ID3 container: the magic and a cut-off header.
    let truncated = vec![0x49, 0x44, 0x33, 0x04, 0x00];
    let (d3, _) = SongData::from_uri("file:///c.mp3", Some("c.mp3"), Some(&truncated));
    assert_eq!(d3.uri(), "file:///c.mp3");
    assert_eq!(d3.title(), Some("c"));
}

#[test]
fn resolve_without_display_name_has_no_fingerprint() {
    let (data, _) = SongData::from_uri("file:///a.mp3", None, None);
    assert_eq!(data.uuid(), None);
    assert_eq!(data.artist(), None);
    assert_eq!(data.title(), None);
}

#[test]
fn from_parsed_prefers_primary_tag() {
    let parsed = ParsedFile {
        primary: Some(tag(Some("P Artist"), Some("P Title"), Some("P Album"), Some(b"img"))),
        tags: vec![tag(Some("Other"), Some("Other"), None, None)],
        duration: 95,
    };
    let (data, picture) = SongData::from_parsed("file:///p.mp3", Some("p.mp3"), &Some(parsed));
    assert_eq!(data.artist(), Some("P Artist"));
    assert_eq!(data.title(), Some("P Title"));
    assert_eq!(data.album(), Some("P Album"));
    assert_eq!(data.duration(), 95);
    assert_eq!(picture.as_deref(), Some(&b"img"[..]));
    let expect = digest_hex(b"p.mp3P ArtistP TitleP Album");
    assert_eq!(data.uuid(), Some(expect.as_str()));
}

#[test]
fn from_parsed_scans_containers_in_order() {
    // Without a primary tag, artist and title come from the first
    // container yielding both, and the scan stops there; album and cover
    // merge opportunistically from any earlier container that had them.
    let parsed = ParsedFile {
        primary: None,
        tags: vec![
            tag(Some("A1"), None, Some("Al1"), Some(b"pic1")),
            tag(Some("A2"), Some("T2"), None, None),
            tag(Some("A3"), Some("T3"), Some("Al3"), Some(b"pic3")),
        ],
        duration: 7,
    };
    let (data, picture) = SongData::from_parsed("file:///s.mp3", Some("s.mp3"), &Some(parsed));
    assert_eq!(data.artist(), Some("A2"));
    assert_eq!(data.title(), Some("T2"));
    assert_eq!(data.album(), Some("Al1"));
    assert_eq!(picture.as_deref(), Some(&b"pic1"[..]));
    assert_eq!(data.duration(), 7);
}

#[test]
fn from_parsed_merges_album_from_earlier_container() {
    // An album found in an early container survives a later container
    // that yields artist and title but no album.
    let parsed = ParsedFile {
        primary: None,
        tags: vec![
            tag(None, None, Some("Kept Album"), None),
            tag(Some("A"), Some("T"), None, None),
        ],
        duration: 1,
    };
    let (data, _) = SongData::from_parsed("file:///k.mp3", Some("k.mp3"), &Some(parsed));
    assert_eq!(data.artist(), Some("A"));
    assert_eq!(data.title(), Some("T"));
    assert_eq!(data.album(), Some("Kept Album"));
}

#[test]
fn from_parsed_falls_back_when_tags_unusable() {
    // Containers that yield neither artist nor title leave the file name
    // as the only source.
    let parsed = ParsedFile {
        primary: None,
        tags: vec![tag(None, None, Some("Album Only"), None)],
        duration: 3,
    };
    let (data, _) =
        SongData::from_parsed("file:///f.mp3", Some("Artist - Title.mp3"), &Some(parsed));
    assert_eq!(data.artist(), Some("Artist"));
    assert_eq!(data.title(), Some("Title"));
    assert_eq!(data.album(), Some("Album Only"));
    assert_eq!(data.duration(), 3);
}

#[test]
fn song_from_uri_accepts_ordinary_files() {
    let s = Song::from_uri("file:///m/Artist - Title.mp3", Some("Artist - Title.mp3"), None)
        .expect("an ordinary file resolves");
    assert_eq!(s.artist(), "Artist");
    assert_eq!(s.title(), "Title");
    assert_eq!(s.album(), "Unknown album");
    assert!(!s.playing());
    assert!(!s.selected());
}
