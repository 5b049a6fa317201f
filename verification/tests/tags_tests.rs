use lofty::config::WriteOptions;
use lofty::picture::MimeType;
use lofty::picture::Picture;
use lofty::picture::PictureType;
use lofty::tag::Accessor;
use lofty::tag::Tag;
use lofty::tag::TagExt;
use lofty::tag::TagType;

use amberol::hashing::digest_hex;
use amberol::song::SongData;
use amberol::tags::parse_file_bytes;

/// Bytes of an MPEG stream with an ID3v2 tag in front: the dumped tag,
/// then two well-formed 128 kbps, 44.1 kHz Layer III frames — the reader
/// verifies the sync against the following frame's header.
fn tagged_mpeg(tag: &Tag) -> Vec<u8> {
    let mut bytes = Vec::new();
    tag.dump_to(&mut bytes, WriteOptions::default()).expect("tag dumps to bytes");
    let mut frame = vec![0xFFu8, 0xFB, 0x90, 0x00];
    frame.resize(417, 0x55);
    bytes.extend_from_slice(&frame);
    bytes.extend_from_slice(&frame);
    bytes
}

fn full_tag() -> Tag {
    let mut tag = Tag::new(TagType::Id3v2);
    tag.set_artist("Tagged Artist".to_string());
    tag.set_title("Tagged Title".to_string());
    tag.set_album("Tagged Album".to_string());
    tag.push_picture(
        Picture::unchecked(b"picture-bytes".to_vec())
            .pic_type(PictureType::CoverFront)
            .mime_type(MimeType::Png)
            .build(),
    );
    tag
}

#[test]
fn parse_reads_back_what_the_tag_holds() {
    let bytes = tagged_mpeg(&full_tag());
    let parsed = parse_file_bytes(&bytes).expect("a tagged stream parses");
    let all = if let Some(p) = &parsed.primary {
        p
    } else {
        &parsed.tags[0]
    };
    assert_eq!(all.artist.as_deref(), Some("Tagged Artist"));
    assert_eq!(all.title.as_deref(), Some("Tagged Title"));
    assert_eq!(all.album.as_deref(), Some("Tagged Album"));
    assert_eq!(all.picture.as_deref(), Some(&b"picture-bytes"[..]));
}

#[test]
fn resolve_uses_the_tagged_fields() {
    let bytes = tagged_mpeg(&full_tag());
    let (data, picture) =
        SongData::from_uri("file:///m/other-name.mp3", Some("other-name.mp3"), Some(&bytes));
    assert_eq!(data.artist(), Some("Tagged Artist"));
    assert_eq!(data.title(), Some("Tagged Title"));
    assert_eq!(data.album(), Some("Tagged Album"));
    assert_eq!(picture.as_deref(), Some(&b"picture-bytes"[..]));
    // The fingerprint hashes the display name and the tagged fields.
    let expect = digest_hex(b"other-name.mp3Tagged ArtistTagged TitleTagged Album");
    assert_eq!(data.uuid(), Some(expect.as_str()));
}

#[test]
fn tagged_fields_win_over_the_file_name() {
    let bytes = tagged_mpeg(&full_tag());
    let (data, _) =
        SongData::from_uri("file:///m/Wrong - Name.mp3", Some("Wrong - Name.mp3"), Some(&bytes));
    assert_eq!(data.artist(), Some("Tagged Artist"));
    assert_eq!(data.title(), Some("Tagged Title"));
}

#[test]
fn unparseable_bytes_parse_to_nothing() {
    assert!(parse_file_bytes(b"not audio at all").is_none());
    assert!(parse_file_bytes(b"").is_none());
}
