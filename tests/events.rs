use player_bridge::{
    device_id, digest_hex, event_record, EventListener, EventRecord, FieldValue, PlayerEvent,
    RelayStep,
};

fn text(k: &str, v: &str) -> (String, FieldValue) {
    (k.to_string(), FieldValue::Text(v.to_string()))
}

fn num(k: &str, v: u64) -> (String, FieldValue) {
    (k.to_string(), FieldValue::Number(v))
}

fn flag(k: &str, v: bool) -> (String, FieldValue) {
    (k.to_string(), FieldValue::Flag(v))
}

fn playing() -> PlayerEvent {
    PlayerEvent::Playing { play_request_id: 4, track_id: "t1".to_string(), position_ms: 1200 }
}

#[test]
fn events_before_registration_are_dropped() {
    let mut l = EventListener::new();
    assert!(matches!(l.relay(Some(playing())), RelayStep::Drop));
    assert!(matches!(l.relay(Some(PlayerEvent::ShuffleChanged { shuffle: true })), RelayStep::Drop));
    assert!(l.is_open());
}

#[test]
fn events_after_registration_are_delivered() {
    let mut l = EventListener::new();
    l.relay(Some(playing()));
    l.register_callback();
    match l.relay(Some(playing())) {
        RelayStep::Deliver(r) => assert_eq!(
            r.fields,
            vec![text("event", "Playing"), num("play_request_id", 4), text("track_id", "t1"), num("position_ms", 1200)]
        ),
        other => panic!("expected delivery, got {:?}", other),
    }
    match l.relay(Some(PlayerEvent::VolumeChanged { volume: 40000 })) {
        RelayStep::Deliver(r) => {
            assert_eq!(r.fields, vec![text("event", "VolumeChanged"), num("volume", 40000)])
        }
        other => panic!("expected delivery, got {:?}", other),
    }
}

#[test]
fn stream_end_finishes_listener() {
    let mut l = EventListener::new();
    l.register_callback();
    assert!(matches!(l.relay(None), RelayStep::Finish));
    assert!(!l.is_open());
    assert!(matches!(l.relay(Some(playing())), RelayStep::Finish));
}

#[test]
fn request_events_map_their_fields() {
    let r = event_record(PlayerEvent::Stopped { play_request_id: 9, track_id: "a".to_string() });
    assert_eq!(r.fields, vec![text("event", "Stopped"), num("play_request_id", 9), text("track_id", "a")]);
    let r = event_record(PlayerEvent::EndOfTrack { play_request_id: 1, track_id: "b".to_string() });
    assert_eq!(r.fields[0], text("event", "EndOfTrack"));
    let r = event_record(PlayerEvent::Preloading { track_id: "c".to_string() });
    assert_eq!(r.fields, vec![text("event", "Preloading"), text("track_id", "c")]);
    let r = event_record(PlayerEvent::Seeked {
        play_request_id: 2,
        track_id: "d".to_string(),
        position_ms: u32::MAX,
    });
    assert_eq!(r.fields[3], num("position_ms", u32::MAX as u64));
    let r = event_record(PlayerEvent::Loading {
        play_request_id: u64::MAX,
        track_id: "e".to_string(),
        position_ms: 0,
    });
    assert_eq!(r.fields[1], num("play_request_id", u64::MAX));
}

#[test]
fn session_and_toggle_events_map_their_fields() {
    let r = event_record(PlayerEvent::SessionConnected {
        connection_id: "c1".to_string(),
        user_name: "u".to_string(),
    });
    assert_eq!(r.fields, vec![text("event", "SessionConnected"), text("connection_id", "c1"), text("user_name", "u")]);
    let r = event_record(PlayerEvent::SessionClientChanged {
        client_id: "i".to_string(),
        client_name: "n".to_string(),
        client_brand_name: "b".to_string(),
        client_model_name: "m".to_string(),
    });
    assert_eq!(r.fields.len(), 5);
    assert_eq!(r.fields[4], text("client_model_name", "m"));
    let r = event_record(PlayerEvent::TrackChanged { track_id: "z".to_string() });
    assert_eq!(r.fields, vec![text("event", "TrackChanged"), text("audio_item", "z")]);
    let r = event_record(PlayerEvent::RepeatChanged { repeat: false });
    assert_eq!(r.fields, vec![text("event", "RepeatChanged"), flag("repeat", false)]);
    let r = event_record(PlayerEvent::FilterExplicitContentChanged { filter: true });
    assert_eq!(r.fields, vec![text("event", "FilterExplicitContentChanged"), flag("filter", true)]);
}

#[test]
fn record_builder_appends_in_order() {
    let mut r = EventRecord::new();
    r.add_event("Custom");
    r.add_bool("flag", true);
    r.add_number("n", 3);
    r.add_string("s", "x".to_string());
    assert_eq!(r.fields, vec![text("event", "Custom"), flag("flag", true), num("n", 3), text("s", "x")]);
}

#[test]
fn device_id_is_hex_of_sha1() {
    assert_eq!(device_id("test"), "a94a8fe5ccb19ba61c4c0873d391e987982fbbd3");
    assert_eq!(device_id("").len(), 40);
    assert_eq!(device_id(""), "da39a3ee5e6b4b0d3255bfef95601890afd80709");
}

#[test]
fn digest_hex_writes_two_lowercase_digits_per_byte() {
    assert_eq!(digest_hex(&vec![0x00, 0xab, 0xff, 0x10]), "00abff10");
    assert_eq!(digest_hex(&vec![]), "");
}
