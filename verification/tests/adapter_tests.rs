use ha_mpris_bridge::hub::{HAEvent, MediaPlayer};
use ha_mpris_bridge::json::JsonVal;
use ha_mpris_bridge::metadata::{HALoopStatus, MediaPlayerMetadata};
use ha_mpris_bridge::player::{AdapterNotice, MyPlayer};

fn sample_metadata() -> MediaPlayerMetadata {
    MediaPlayerMetadata {
        title: "Song".to_string(),
        artist: "Band".to_string(),
        duration: 180,
        position: 10,
        volume: 1000,
        art_url: "http://host:8123/local/pic.jpg".to_string(),
        playing: false,
        shuffle: false,
        repeat: HALoopStatus::Off,
    }
}

fn adapter() -> MyPlayer {
    MyPlayer { entity_id: "media_player.x".to_string(), metadata: sample_metadata() }
}

#[test]
fn apply_play_sets_playing_and_notifies() {
    let mut p = adapter();
    let notices = p.apply(HAEvent::Play);
    assert!(p.metadata.playing);
    assert_eq!(p.metadata.title.as_str(), "Song");
    assert_eq!(notices, vec![AdapterNotice::PlaybackChanged(true)]);
}

#[test]
fn apply_pause_clears_playing_and_notifies() {
    let mut p = adapter();
    p.metadata.playing = true;
    let notices = p.apply(HAEvent::Pause);
    assert!(!p.metadata.playing);
    assert_eq!(notices, vec![AdapterNotice::PlaybackChanged(false)]);
}

#[test]
fn apply_metadata_replaces_cache_and_reports_seek() {
    let mut p = adapter();
    let mut new_meta = sample_metadata();
    new_meta.title = "Other".to_string();
    new_meta.position = 55;
    new_meta.playing = true;
    let notices = p.apply(HAEvent::MetadataUpdated(new_meta.clone()));
    assert_eq!(p.metadata, new_meta);
    assert_eq!(
        notices,
        vec![AdapterNotice::PropertiesChanged(new_meta), AdapterNotice::Seeked(55)]
    );
}

#[test]
fn apply_metadata_twice_is_idempotent() {
    let mut once = adapter();
    let mut twice = adapter();
    let mut new_meta = sample_metadata();
    new_meta.title = "Other".to_string();
    once.apply(HAEvent::MetadataUpdated(new_meta.clone()));
    twice.apply(HAEvent::MetadataUpdated(new_meta.clone()));
    twice.apply(HAEvent::MetadataUpdated(new_meta));
    assert_eq!(once.metadata, twice.metadata);
}

#[test]
fn apply_ignores_outbound_only_commands() {
    let mut p = adapter();
    let before = p.metadata.clone();
    assert!(p.apply(HAEvent::Next).is_empty());
    assert!(p.apply(HAEvent::Previous).is_empty());
    assert!(p.apply(HAEvent::Volume(500)).is_empty());
    assert!(p.apply(HAEvent::SetShuffle(true)).is_empty());
    assert!(p.apply(HAEvent::SetLoop(HALoopStatus::Track)).is_empty());
    assert!(p.apply(HAEvent::Seek(5)).is_empty());
    assert_eq!(p.metadata, before);
}

#[test]
fn local_actions_are_tagged_with_the_entity() {
    let p = adapter();
    assert_eq!(p.play(), ("media_player.x".to_string(), HAEvent::Play));
    assert_eq!(p.pause(), ("media_player.x".to_string(), HAEvent::Pause));
    assert_eq!(p.stop(), ("media_player.x".to_string(), HAEvent::Pause));
    assert_eq!(p.next(), ("media_player.x".to_string(), HAEvent::Next));
    assert_eq!(p.previous(), ("media_player.x".to_string(), HAEvent::Previous));
    assert_eq!(p.seek(30), ("media_player.x".to_string(), HAEvent::Seek(30)));
    assert_eq!(p.set_position(45), ("media_player.x".to_string(), HAEvent::Seek(45)));
    assert_eq!(p.set_volume(500), ("media_player.x".to_string(), HAEvent::Volume(500)));
    assert_eq!(p.set_shuffle(true), ("media_player.x".to_string(), HAEvent::SetShuffle(true)));
    assert_eq!(
        p.set_loop_status(HALoopStatus::Playlist),
        ("media_player.x".to_string(), HAEvent::SetLoop(HALoopStatus::Playlist))
    );
}

#[test]
fn play_pause_toggles_on_cached_state() {
    let mut p = adapter();
    assert_eq!(p.play_pause().1, HAEvent::Play);
    p.metadata.playing = true;
    assert_eq!(p.play_pause().1, HAEvent::Pause);
}

#[test]
fn read_operations_reflect_the_cache() {
    let mut p = adapter();
    p.metadata.playing = true;
    p.metadata.shuffle = true;
    p.metadata.repeat = HALoopStatus::Track;
    p.metadata.volume = 250;
    p.metadata.position = 12;
    assert!(p.playback_status());
    assert!(p.shuffle());
    assert_eq!(p.loop_status(), HALoopStatus::Track);
    assert_eq!(p.volume(), 250);
    assert_eq!(p.position(), 12);
    assert_eq!(p.metadata(), p.metadata);
}

#[test]
fn adapter_from_snapshot_normalizes_and_derives_playing() {
    let snapshot = MediaPlayer {
        entity_id: "media_player.x".to_string(),
        attributes: vec![
            ("media_title".to_string(), JsonVal::Str("Song".to_string())),
            ("media_duration".to_string(), JsonVal::Int(180)),
        ],
        state: "playing".to_string(),
    };
    let p = MyPlayer::new("media_player.x".to_string(), snapshot, "http://host:8123").unwrap();
    assert_eq!(p.entity_id.as_str(), "media_player.x");
    assert!(p.metadata.playing);
    assert_eq!(p.metadata.title.as_str(), "Song");
    assert_eq!(p.metadata.duration, 180);
}

#[test]
fn adapter_from_bad_snapshot_fails() {
    let snapshot = MediaPlayer {
        entity_id: "media_player.x".to_string(),
        attributes: vec![("media_duration".to_string(), JsonVal::Str("?".to_string()))],
        state: "idle".to_string(),
    };
    assert!(MyPlayer::new("media_player.x".to_string(), snapshot, "http://host:8123").is_err());
}
