use amberol::artwork::ArtworkCache;
use amberol::hashing::digest_hex;
use amberol::palette::Bitmap;
use amberol::palette::Color;
use amberol::palette::compute_palette;
use amberol::song::SongData;
use amberol::artwork::attach_cached_cover;

fn bitmap_of(pixels: &[[u8; 4]]) -> Bitmap {
    Bitmap {
        width: pixels.len() as u32,
        height: 1,
        pixels: pixels.iter().flatten().copied().collect(),
    }
}

#[test]
fn decode_happens_once_per_blob() {
    // N calls with byte-identical blobs decode exactly once: only a miss
    // reaches the decode step.
    let mut cache = ArtworkCache::new();
    let blob: Vec<u8> = b"the one cover image".to_vec();
    let mut decode_calls = 0u32;
    let mut handles = Vec::new();
    for _ in 0..3 {
        match cache.probe(&blob) {
            Some((idx, uuid)) => handles.push((idx, uuid)),
            None => {
                decode_calls += 1;
                let bitmap = bitmap_of(&[[255, 0, 0, 255]]);
                let (idx, uuid) = cache.insert_decoded(&blob, bitmap);
                handles.push((idx, uuid));
            }
        }
    }
    assert_eq!(decode_calls, 1);
    assert_eq!(cache.len(), 1);
    assert!(handles.windows(2).all(|w| w[0] == w[1]));
    assert_eq!(handles[0].1, digest_hex(&blob));
}

#[test]
fn single_bit_flip_makes_a_distinct_entry() {
    let mut cache = ArtworkCache::new();
    let blob1: Vec<u8> = b"cover bytes".to_vec();
    let mut blob2 = blob1.clone();
    blob2[0] ^= 0x01;

    let (i1, u1) = cache.insert_decoded(&blob1, bitmap_of(&[[1, 2, 3, 255]]));
    let (i2, u2) = cache.insert_decoded(&blob2, bitmap_of(&[[4, 5, 6, 255]]));
    assert_ne!(u1, u2);
    assert_ne!(i1, i2);
    assert_eq!(cache.len(), 2);
}

#[test]
fn racing_insert_keeps_the_first_copy() {
    // A second decode of the same blob — the loser of a race — is
    // discarded; the existing entry wins.
    let mut cache = ArtworkCache::new();
    let blob: Vec<u8> = b"raced".to_vec();
    let (i1, _) = cache.insert_decoded(&blob, bitmap_of(&[[9, 9, 9, 255]]));
    let (i2, _) = cache.insert_decoded(&blob, bitmap_of(&[[1, 1, 1, 255]]));
    assert_eq!(i1, i2);
    assert_eq!(cache.len(), 1);
    assert_eq!(cache.artwork(i1).bitmap.pixels, vec![9, 9, 9, 255]);
}

#[test]
fn palette_orders_buckets_by_dominance() {
    // Three red pixels, one blue: red is the primary accent color.
    let bm = bitmap_of(&[
        [255, 0, 0, 255],
        [250, 3, 2, 255],
        [255, 10, 5, 255],
        [0, 0, 255, 255],
    ]);
    let pal = compute_palette(&bm);
    assert_eq!(pal.len(), 2);
    assert_eq!(pal[0], Color { r: 255, g: 0, b: 0 });
    assert_eq!(pal[1], Color { r: 0, g: 0, b: 255 });
}

#[test]
fn palette_breaks_ties_toward_smaller_bucket() {
    // One pixel each: equal counts, so the smaller bucket comes first —
    // blue's bucket is below red's.
    let bm = bitmap_of(&[[255, 0, 0, 255], [0, 0, 255, 255]]);
    let pal = compute_palette(&bm);
    assert_eq!(pal.len(), 2);
    assert_eq!(pal[0], Color { r: 0, g: 0, b: 255 });
    assert_eq!(pal[1], Color { r: 255, g: 0, b: 0 });
}

#[test]
fn palette_is_capped() {
    // Six distinct buckets, palette keeps only the most dominant four.
    let bm = bitmap_of(&[
        [0x10, 0, 0, 255],
        [0x10, 0, 0, 255],
        [0x20, 0, 0, 255],
        [0x20, 0, 0, 255],
        [0x30, 0, 0, 255],
        [0x40, 0, 0, 255],
        [0x50, 0, 0, 255],
        [0x60, 0, 0, 255],
    ]);
    let pal = compute_palette(&bm);
    assert_eq!(pal.len(), 4);
    // The two double-counted buckets lead, smaller bucket first.
    assert_eq!(pal[0], Color { r: 0x11, g: 0, b: 0 });
    assert_eq!(pal[1], Color { r: 0x22, g: 0, b: 0 });
}

#[test]
fn palette_of_empty_image_is_empty() {
    let bm = Bitmap { width: 0, height: 0, pixels: Vec::new() };
    assert_eq!(compute_palette(&bm).len(), 0);
}

#[test]
fn cover_attachment_and_getters() {
    let mut cache = ArtworkCache::new();
    let blob: Vec<u8> = b"artwork".to_vec();
    let (mut data, _) = SongData::from_uri("file:///t.mp3", Some("t.mp3"), None);
    assert_eq!(data.cover_art(), None);

    let (idx, uuid) = cache.insert_decoded(&blob, bitmap_of(&[[255, 0, 0, 255]]));
    data.attach_cover(idx, uuid.clone());
    assert_eq!(data.cover_art(), Some(idx));
    assert_eq!(data.cover_uuid(), Some(uuid.as_str()));

    let song = amberol::song::Song::new(data);
    assert_eq!(song.cover_color(&cache), Some(Color { r: 255, g: 0, b: 0 }));
    assert_eq!(song.cover_palette(&cache).map(|p| p.len()), Some(1));
    assert!(song.cover_texture(&cache).is_some());
    assert_eq!(song.cover_cache(&cache), None);

    let mut cache = cache;
    assert!(cache.record_disk_cache(idx, "/tmp/cover".to_string()));
    assert_eq!(song.cover_cache(&cache), Some("/tmp/cover".to_string()));
}

#[test]
fn attach_cached_cover_hits_and_misses() {
    let mut cache = ArtworkCache::new();
    let blob: Vec<u8> = b"shared cover".to_vec();
    let (mut first, _) = SongData::from_uri("file:///1.mp3", Some("1.mp3"), None);

    // Nothing cached yet: a miss leaves the item untouched.
    assert!(!attach_cached_cover(&mut first, &cache, &blob));
    assert_eq!(first.cover_art(), None);

    let (idx, uuid) = cache.insert_decoded(&blob, bitmap_of(&[[0, 0, 0, 255]]));
    let (mut second, _) = SongData::from_uri("file:///2.mp3", Some("2.mp3"), None);
    assert!(attach_cached_cover(&mut second, &cache, &blob));
    assert_eq!(second.cover_art(), Some(idx));
    assert_eq!(second.cover_uuid(), Some(uuid.as_str()));
}
