use amberol::controller::PlaybackState;
use amberol::controller::RepeatMode;
use amberol::controller::SinkStatus;
use amberol::hub::ControllerHub;
use amberol::hub::Update;
use amberol::song::Song;
use amberol::song::SongData;

fn item(name: &str) -> Song {
    let (data, _) = SongData::from_uri(
        &format!("file:///m/{}", name),
        Some(name),
        None,
    );
    Song::new(data)
}

fn song_title(u: &Update) -> Option<String> {
    match u {
        Update::Song(s) => Some(s.title()),
        _ => None,
    }
}

#[test]
fn broadcast_reaches_ready_sinks_only() {
    // Three sinks; the middle one is still constructing and must drop the
    // update, the other two must see it exactly once.
    let mut hub = ControllerHub::new();
    let s0 = hub.register_sink(SinkStatus::Ready);
    let s1 = hub.register_sink(SinkStatus::Constructing);
    let s2 = hub.register_sink(SinkStatus::Ready);

    let song = item("One - Song.mp3");
    hub.broadcast_song(&song);

    assert_eq!(hub.sink_deliveries(s0).len(), 1);
    assert_eq!(hub.sink_deliveries(s1).len(), 0);
    assert_eq!(hub.sink_deliveries(s2).len(), 1);
    assert_eq!(song_title(&hub.sink_deliveries(s0)[0]), Some("Song".to_string()));
    assert_eq!(song_title(&hub.sink_deliveries(s2)[0]), Some("Song".to_string()));
}

#[test]
fn catch_up_replay_on_readiness() {
    // The sink that was constructing during the broadcast receives the
    // same song as its first delivery when it becomes ready, followed by
    // the rest of the full state.
    let mut hub = ControllerHub::new();
    hub.register_sink(SinkStatus::Ready);
    let late = hub.register_sink(SinkStatus::Constructing);
    hub.register_sink(SinkStatus::Ready);

    let song = item("One - Song.mp3");
    hub.broadcast_song(&song);
    hub.broadcast_position(42);
    hub.broadcast_state(PlaybackState::Playing);

    assert_eq!(hub.sink_deliveries(late).len(), 0);
    hub.mark_ready(late);

    let log = hub.sink_deliveries(late);
    assert_eq!(log.len(), 4);
    assert_eq!(song_title(&log[0]), Some("Song".to_string()));
    assert!(matches!(log[1], Update::Position(42)));
    assert!(matches!(log[2], Update::State(PlaybackState::Playing)));
    assert!(matches!(log[3], Update::Repeat(RepeatMode::Consecutive)));
}

#[test]
fn failed_construction_is_terminal() {
    let mut hub = ControllerHub::new();
    let dead = hub.register_sink(SinkStatus::Constructing);
    let live = hub.register_sink(SinkStatus::Ready);

    hub.mark_unavailable(dead);
    let song = item("A - B.mp3");
    hub.broadcast_song(&song);
    hub.broadcast_repeat(RepeatMode::RepeatAll);

    assert_eq!(hub.sink_deliveries(dead).len(), 0);
    assert_eq!(hub.sink_deliveries(live).len(), 2);
}

#[test]
fn every_broadcast_kind_is_delivered_in_order() {
    let mut hub = ControllerHub::new();
    let s = hub.register_sink(SinkStatus::Ready);
    hub.broadcast_state(PlaybackState::Paused);
    hub.broadcast_position(7);
    hub.broadcast_repeat(RepeatMode::RepeatOne);
    let log = hub.sink_deliveries(s);
    assert!(matches!(log[0], Update::State(PlaybackState::Paused)));
    assert!(matches!(log[1], Update::Position(7)));
    assert!(matches!(log[2], Update::Repeat(RepeatMode::RepeatOne)));
}
