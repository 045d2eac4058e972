use ha_mpris_bridge::hub::{
    filter_media_players, HAEvent, MediaPlayer, MediaPlayerState,
};
use ha_mpris_bridge::json::{render_json, JsonVal};
use ha_mpris_bridge::listener::{
    HubListener, ListenerAction, ListenerInput, ListenerPhase, TerminationReason, BACKOFF_SECS,
    IDLE_TIMEOUT_SECS,
};
use ha_mpris_bridge::player::MyPlayer;

const BASE: &str = "http://host:8123";
const TOKEN: &str = "SECRET-REDACTED";

fn listener() -> HubListener {
    let players = vec![MediaPlayerState::new(
        "media_player.x".to_string(),
        BASE.to_string(),
        TOKEN.to_string(),
    )];
    HubListener::new(players, TOKEN.to_string())
}

fn obj(entries: Vec<(&str, JsonVal)>) -> JsonVal {
    JsonVal::Obj(entries.into_iter().map(|(k, v)| (k.to_string(), v)).collect())
}

fn event_frame(entity_id: &str, state: &str, attributes: Vec<(&str, JsonVal)>) -> JsonVal {
    obj(vec![(
        "event",
        obj(vec![(
            "data",
            obj(vec![
                ("entity_id", JsonVal::Str(entity_id.to_string())),
                (
                    "new_state",
                    obj(vec![
                        ("state", JsonVal::Str(state.to_string())),
                        ("attributes", obj(attributes)),
                    ]),
                ),
            ]),
        )]),
    )])
}

fn streaming_listener() -> HubListener {
    let mut l = listener();
    l.step(ListenerInput::Connected);
    l.step(ListenerInput::Frame(obj(vec![("type", JsonVal::Str("auth_ok".to_string()))])));
    l.step(ListenerInput::SendOk);
    assert_eq!(l.phase, ListenerPhase::Streaming);
    l
}

#[test]
fn handshake_sends_auth_then_subscribe() {
    let mut l = listener();
    assert_eq!(l.phase, ListenerPhase::Connecting);

    let actions = l.step(ListenerInput::Connected);
    assert_eq!(l.phase, ListenerPhase::Authenticating);
    assert_eq!(actions.len(), 1);
    match &actions[0] {
        ListenerAction::SendFrame(f) => {
            assert_eq!(
                render_json(f).as_str(),
                "{\"type\":\"auth\",\"access_token\":\"SECRET-REDACTED\"}"
            );
        }
        other => panic!("expected an auth frame, got {:?}", other),
    }

    // frames that are neither auth_ok nor auth_invalid are ignored
    let none = l.step(ListenerInput::Frame(obj(vec![("type", JsonVal::Str("hello".to_string()))])));
    assert!(none.is_empty());
    assert_eq!(l.phase, ListenerPhase::Authenticating);

    let actions = l.step(ListenerInput::Frame(obj(vec![(
        "type",
        JsonVal::Str("auth_ok".to_string()),
    )])));
    assert_eq!(l.phase, ListenerPhase::Subscribing);
    assert_eq!(actions.len(), 1);
    match &actions[0] {
        ListenerAction::SendFrame(f) => {
            assert_eq!(
                render_json(f).as_str(),
                "{\"id\":1,\"type\":\"subscribe_events\",\"event_type\":\"state_changed\"}"
            );
        }
        other => panic!("expected a subscribe frame, got {:?}", other),
    }

    let actions = l.step(ListenerInput::SendOk);
    assert!(actions.is_empty());
    assert_eq!(l.phase, ListenerPhase::Streaming);
}

#[test]
fn auth_rejection_terminates() {
    let mut l = listener();
    l.step(ListenerInput::Connected);
    l.step(ListenerInput::Frame(obj(vec![("type", JsonVal::Str("auth_invalid".to_string()))])));
    assert_eq!(l.phase, ListenerPhase::Terminated(TerminationReason::AuthRejected));
}

#[test]
fn connect_failure_terminates() {
    let mut l = listener();
    l.step(ListenerInput::ConnectFailed);
    assert_eq!(l.phase, ListenerPhase::Terminated(TerminationReason::ConnectError));
}

#[test]
fn subscribe_send_failure_terminates() {
    let mut l = listener();
    l.step(ListenerInput::Connected);
    l.step(ListenerInput::Frame(obj(vec![("type", JsonVal::Str("auth_ok".to_string()))])));
    l.step(ListenerInput::SendFailed);
    assert_eq!(l.phase, ListenerPhase::Terminated(TerminationReason::SubscribeError));
}

#[test]
fn inbound_event_routes_play_and_metadata() {
    // end to end: a playing event for a registered entity ends in the
    // adapter's cache with the normalized values
    let mut l = streaming_listener();
    let frame = event_frame(
        "media_player.x",
        "playing",
        vec![
            ("media_title", JsonVal::Str("Song".to_string())),
            ("media_duration", JsonVal::Int(180)),
            ("media_position", JsonVal::Int(10)),
        ],
    );
    let actions = l.step(ListenerInput::Frame(frame));
    assert_eq!(l.phase, ListenerPhase::Streaming);
    assert_eq!(actions.len(), 2);

    let snapshot = MediaPlayer {
        entity_id: "media_player.x".to_string(),
        attributes: vec![],
        state: "idle".to_string(),
    };
    let mut adapter =
        MyPlayer::new("media_player.x".to_string(), snapshot, BASE).unwrap();
    for action in actions {
        match action {
            ListenerAction::Route(id, ev) => {
                assert_eq!(id.as_str(), "media_player.x");
                adapter.apply(ev);
            }
            other => panic!("expected routed commands, got {:?}", other),
        }
    }
    assert_eq!(adapter.metadata.title.as_str(), "Song");
    assert!(adapter.metadata.playing);
    assert_eq!(adapter.metadata.duration, 180);
    assert_eq!(adapter.metadata.position, 10);
    assert_eq!(adapter.metadata.volume, 1000);
    assert!(!adapter.metadata.shuffle);
}

#[test]
fn inbound_event_for_unregistered_entity_is_dropped() {
    let mut l = streaming_listener();
    let frame = event_frame(
        "media_player.other",
        "playing",
        vec![("media_title", JsonVal::Str("Song".to_string()))],
    );
    let actions = l.step(ListenerInput::Frame(frame));
    assert!(actions.is_empty());
    assert_eq!(l.phase, ListenerPhase::Streaming);
}

#[test]
fn frame_without_event_fields_is_dropped() {
    let mut l = streaming_listener();
    assert!(l.step(ListenerInput::Frame(obj(vec![("type", JsonVal::Str("pong".to_string()))])))
        .is_empty());
    assert!(l.step(ListenerInput::MalformedFrame).is_empty());
    let no_state = obj(vec![(
        "event",
        obj(vec![(
            "data",
            obj(vec![("entity_id", JsonVal::Str("media_player.x".to_string()))]),
        )]),
    )]);
    assert!(l.step(ListenerInput::Frame(no_state)).is_empty());
    assert_eq!(l.phase, ListenerPhase::Streaming);
}

#[test]
fn event_that_fails_normalization_is_dropped() {
    let mut l = streaming_listener();
    let frame = event_frame(
        "media_player.x",
        "playing",
        vec![("media_duration", JsonVal::Str("long".to_string()))],
    );
    assert!(l.step(ListenerInput::Frame(frame)).is_empty());
    assert_eq!(l.phase, ListenerPhase::Streaming);
}

#[test]
fn outbound_volume_becomes_volume_set_call() {
    // a local set-volume of one half reaches the hub as volume_set
    let mut l = streaming_listener();
    let half = (0.5f64 * 1000.0) as i64;
    let actions = l.step(ListenerInput::Outbound(
        "media_player.x".to_string(),
        HAEvent::Volume(half),
    ));
    assert_eq!(actions.len(), 1);
    match &actions[0] {
        ListenerAction::Dispatch(q) => {
            assert_eq!(q.url.as_str(), "http://host:8123/api/services/media_player/volume_set");
            assert_eq!(q.token.as_str(), TOKEN);
            assert_eq!(q.entity_id.as_str(), "media_player.x");
            assert_eq!(
                q.extra,
                Some(("volume_level".to_string(), JsonVal::Milli(500)))
            );
        }
        other => panic!("expected a dispatch, got {:?}", other),
    }
}

#[test]
fn outbound_commands_map_to_their_services() {
    let mut l = streaming_listener();
    let cases: Vec<(HAEvent, &str)> = vec![
        (HAEvent::Play, "media_play"),
        (HAEvent::Pause, "media_pause"),
        (HAEvent::Next, "media_next_track"),
        (HAEvent::Previous, "media_previous_track"),
        (HAEvent::SetShuffle(true), "shuffle_set"),
        (HAEvent::SetLoop(ha_mpris_bridge::metadata::HALoopStatus::Playlist), "repeat_set"),
        (HAEvent::Seek(30), "media_seek"),
    ];
    for (ev, service) in cases {
        let actions = l.step(ListenerInput::Outbound("media_player.x".to_string(), ev));
        assert_eq!(actions.len(), 1);
        match &actions[0] {
            ListenerAction::Dispatch(q) => {
                let expected = format!("http://host:8123/api/services/media_player/{}", service);
                assert_eq!(q.url.as_str(), expected.as_str());
            }
            other => panic!("expected a dispatch, got {:?}", other),
        }
    }
}

#[test]
fn outbound_for_unregistered_entity_is_dropped() {
    let mut l = streaming_listener();
    let actions = l.step(ListenerInput::Outbound(
        "media_player.other".to_string(),
        HAEvent::Play,
    ));
    assert!(actions.is_empty());
    assert_eq!(l.phase, ListenerPhase::Streaming);
}

#[test]
fn outbound_metadata_update_is_not_dispatched() {
    let mut l = streaming_listener();
    let snapshot_meta = ha_mpris_bridge::metadata::MediaPlayerMetadata {
        title: String::new(),
        artist: String::new(),
        duration: 0,
        position: 0,
        volume: 1000,
        art_url: String::new(),
        playing: false,
        shuffle: false,
        repeat: ha_mpris_bridge::metadata::HALoopStatus::Off,
    };
    let actions = l.step(ListenerInput::Outbound(
        "media_player.x".to_string(),
        HAEvent::MetadataUpdated(snapshot_meta),
    ));
    assert!(actions.is_empty());
}

#[test]
fn idle_timeout_terminates_and_restart_reconnects() {
    let mut l = streaming_listener();
    let actions = l.step(ListenerInput::IdleTimeout);
    assert!(actions.is_empty());
    assert_eq!(l.phase, ListenerPhase::Terminated(TerminationReason::IdleTimeout));
    assert_eq!(IDLE_TIMEOUT_SECS, 60);
    assert_eq!(BACKOFF_SECS, 5);

    // the supervisor restarts the same listener: routing table kept
    l.restart();
    assert_eq!(l.phase, ListenerPhase::Connecting);
    assert_eq!(l.players.len(), 1);
    let actions = l.step(ListenerInput::Connected);
    assert_eq!(l.phase, ListenerPhase::Authenticating);
    assert!(matches!(actions[0], ListenerAction::SendFrame(_)));
}

#[test]
fn stream_close_terminates() {
    let mut l = streaming_listener();
    l.step(ListenerInput::StreamClosed);
    assert_eq!(l.phase, ListenerPhase::Terminated(TerminationReason::ConnectionClosed));
}

#[test]
fn terminated_listener_ignores_inputs() {
    let mut l = streaming_listener();
    l.step(ListenerInput::StreamClosed);
    let actions = l.step(ListenerInput::Outbound("media_player.x".to_string(), HAEvent::Play));
    assert!(actions.is_empty());
    assert_eq!(l.phase, ListenerPhase::Terminated(TerminationReason::ConnectionClosed));
}

#[test]
fn snapshot_filter_keeps_allowed_media_players() {
    let mk = |id: &str| MediaPlayer {
        entity_id: id.to_string(),
        attributes: vec![],
        state: "idle".to_string(),
    };
    let all = vec![
        mk("media_player.x"),
        mk("light.kitchen"),
        mk("media_player.y"),
        mk("media_player.z"),
    ];
    let ids = vec!["media_player.x".to_string(), "media_player.z".to_string(), "light.kitchen".to_string()];
    let kept = filter_media_players(all, &ids);
    assert_eq!(kept.len(), 2);
    assert_eq!(kept[0].entity_id.as_str(), "media_player.x");
    assert_eq!(kept[1].entity_id.as_str(), "media_player.z");
}

#[test]
fn request_builders_compose_url_and_params() {
    let state = MediaPlayerState::new(
        "media_player.x".to_string(),
        BASE.to_string(),
        TOKEN.to_string(),
    );
    let q = state.set_loop(ha_mpris_bridge::metadata::HALoopStatus::Track);
    assert_eq!(q.url.as_str(), "http://host:8123/api/services/media_player/repeat_set");
    assert_eq!(q.extra, Some(("repeat".to_string(), JsonVal::Str("one".to_string()))));
    let q = state.set_seek(42);
    assert_eq!(q.extra, Some(("seek_position".to_string(), JsonVal::Int(42))));
    let q = state.play();
    assert_eq!(q.url.as_str(), "http://host:8123/api/services/media_player/media_play");
    assert_eq!(q.extra, None);
}

#[test]
fn update_metadata_derives_play_or_pause() {
    let state = MediaPlayerState::new(
        "media_player.x".to_string(),
        BASE.to_string(),
        TOKEN.to_string(),
    );
    let attrs = vec![("media_title".to_string(), JsonVal::Str("Song".to_string()))];
    let events = state.update_metadata(&attrs, "playing").unwrap();
    assert_eq!(events.len(), 2);
    assert_eq!(events[0], HAEvent::Play);
    assert!(matches!(&events[1], HAEvent::MetadataUpdated(m) if m.title.as_str() == "Song"));
    let events = state.update_metadata(&attrs, "paused").unwrap();
    assert_eq!(events[0], HAEvent::Pause);
    let bad = vec![("shuffle".to_string(), JsonVal::Int(1))];
    assert!(state.update_metadata(&bad, "playing").is_err());
}
