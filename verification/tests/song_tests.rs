use amberol::song::Song;
use amberol::song::SongData;
use amberol::windows::WindowsMediaSession;
use amberol::windows::WindowsPowerManager;
use amberol::windows::get_app_data_dir;
use amberol::windows::get_music_folder;
use amberol::windows::register_file_associations;

fn resolved(uri: &str, name: &str) -> SongData {
    SongData::from_uri(uri, Some(name), None).0
}

#[test]
fn equality_by_matching_fingerprints() {
    // Same display name and fields, different URIs: equal fingerprints,
    // equal items.
    let a = Song::new(resolved("file:///one/x.mp3", "x.mp3"));
    let b = Song::new(resolved("file:///two/x.mp3", "x.mp3"));
    assert_eq!(a.uuid(), b.uuid());
    assert!(a.equals(&b));
}

#[test]
fn equality_by_uri_when_fingerprint_missing() {
    // An item without a fingerprint is equal to another only on an exact
    // URI match.
    let no_fp1 = Song::new(SongData::from_uri("file:///a.mp3", None, None).0);
    let no_fp2 = Song::new(SongData::from_uri("file:///a.mp3", None, None).0);
    let other = Song::new(SongData::from_uri("file:///b.mp3", None, None).0);
    assert!(no_fp1.equals(&no_fp2));
    assert!(!no_fp1.equals(&other));

    // One missing fingerprint falls back to the URI even if the other has
    // one.
    let with_fp = Song::new(resolved("file:///a.mp3", "a.mp3"));
    assert!(no_fp1.equals(&with_fp));
}

#[test]
fn re_resolution_keeps_equality() {
    // The same URI resolved twice — both with fingerprints — stays equal.
    let before = Song::new(resolved("file:///m/t.mp3", "t.mp3"));
    let after = Song::new(resolved("file:///m/t.mp3", "t.mp3"));
    assert!(before.equals(&after));
}

#[test]
fn flags_never_affect_equality() {
    let mut a = Song::new(resolved("file:///m/t.mp3", "t.mp3"));
    let b = Song::new(resolved("file:///m/t.mp3", "t.mp3"));
    a.set_playing(true);
    a.set_selected(true);
    assert!(a.equals(&b));
}

#[test]
fn flag_setters_report_changes_only() {
    let mut s = Song::new(resolved("file:///m/t.mp3", "t.mp3"));
    assert!(!s.playing());
    assert!(s.set_playing(true));
    assert!(!s.set_playing(true));
    assert!(s.set_playing(false));
    assert!(s.set_selected(true));
    assert!(!s.set_selected(true));
    assert!(s.selected());
}

#[test]
fn display_fallbacks_and_search_key() {
    let s = Song::new(resolved("file:///m/OnlyTitle.mp3", "OnlyTitle.mp3"));
    assert_eq!(s.artist(), "Unknown artist");
    assert_eq!(s.title(), "OnlyTitle");
    assert_eq!(s.album(), "Unknown album");
    assert_eq!(s.search_key(), "Unknown artist Unknown album OnlyTitle");
}

#[test]
fn the_placeholder_item() {
    let e = Song::empty();
    assert_eq!(e.artist(), "Invalid Artist");
    assert_eq!(e.title(), "Invalid Title");
    assert_eq!(e.uri(), "file:///does-not-exist");
    assert_eq!(e.uuid(), None);
    assert_eq!(e.duration(), 0);
}

#[test]
fn platform_session_records_requests() {
    let mut pm = WindowsPowerManager::new();
    assert!(!pm.sleep_prevented);
    pm.prevent_sleep();
    assert!(pm.sleep_prevented);
    pm.allow_sleep();
    assert!(!pm.sleep_prevented);

    let mut ms = WindowsMediaSession::new();
    ms.update_metadata("T", "A", "Al");
    assert_eq!(ms.title.as_deref(), Some("T"));
    ms.set_playback_state(true);
    assert!(ms.playing);
    assert_eq!(ms.artist.as_deref(), Some("A"));

    assert_eq!(get_music_folder(), None);
    assert_eq!(get_app_data_dir(), None);
    assert!(register_file_associations().is_ok());
}

#[test]
fn background_resolution_applies_in_one_shot() {
    // A placeholder item shown immediately keeps its flags when the
    // worker's resolution lands.
    let mut s = Song::empty();
    s.set_selected(true);
    let resolved_data = resolved("file:///m/Artist - Title.mp3", "Artist - Title.mp3");
    s.apply_resolution(resolved_data);
    assert_eq!(s.artist(), "Artist");
    assert!(s.selected());
    assert!(!s.playing());
}
