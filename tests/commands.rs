use player_bridge::{
    backend_volume, position_from_host, select_backend, settlement_for, volume_from_host, Command,
    CommandError, Settlement, MAX_BACKEND_VOLUME,
};

#[test]
fn set_volume_above_range_clamps_to_max() {
    assert_eq!(Command::set_volume(150), Command::SetVolume { level: MAX_BACKEND_VOLUME });
    assert_eq!(backend_volume(150), 65535);
    assert_eq!(volume_from_host(150), 65535);
}

#[test]
fn volume_rescales_with_rounding() {
    assert_eq!(backend_volume(0), 0);
    assert_eq!(backend_volume(1), 655);
    assert_eq!(backend_volume(10), 6554);
    assert_eq!(backend_volume(50), 32768);
    assert_eq!(backend_volume(99), 64880);
    assert_eq!(backend_volume(100), 65535);
    assert_eq!(backend_volume(u16::MAX), 65535);
}

#[test]
fn negative_volume_is_silence() {
    assert_eq!(volume_from_host(-5), 0);
    assert_eq!(volume_from_host(i64::MIN), 0);
    assert_eq!(volume_from_host(i64::MAX), 65535);
}

#[test]
fn seek_negative_is_rejected() {
    assert_eq!(Command::seek(-1), Err(CommandError::NegativePosition));
    assert_eq!(position_from_host(-1), Err(CommandError::NegativePosition));
}

#[test]
fn seek_positions_in_range() {
    assert_eq!(Command::seek(0), Ok(Command::Seek { position_ms: 0 }));
    assert_eq!(Command::seek(90_000), Ok(Command::Seek { position_ms: 90_000 }));
    assert_eq!(
        Command::seek(u32::MAX as i64),
        Ok(Command::Seek { position_ms: u32::MAX })
    );
    assert_eq!(Command::seek(u32::MAX as i64 + 1), Err(CommandError::PositionTooLarge));
}

#[test]
fn load_track_start_position() {
    assert_eq!(
        Command::load_track("spotify:track:x".to_string(), false, 2500),
        Ok(Command::LoadTrack {
            uri: "spotify:track:x".to_string(),
            auto_play: false,
            start_ms: 2500
        })
    );
    assert_eq!(
        Command::load_track("spotify:track:x".to_string(), true, -3),
        Err(CommandError::NegativePosition)
    );
}

#[test]
fn settlement_of_results() {
    assert_eq!(settlement_for(&Command::Play, Ok(())), Settlement::Fulfill);
    assert_eq!(
        settlement_for(&Command::Seek { position_ms: 1 }, Err("bad position".to_string())),
        Settlement::Reject("bad position".to_string())
    );
    let token = Command::GetToken { scopes: "streaming".to_string() };
    assert_eq!(settlement_for(&token, Err("offline".to_string())), Settlement::FulfillEmpty);
    assert_eq!(settlement_for(&token, Ok(())), Settlement::Fulfill);
    assert!(Settlement::FulfillEmpty.is_fulfilled());
    assert!(!Settlement::Reject(String::new()).is_fulfilled());
}

#[test]
fn backend_defaults_when_unnamed() {
    assert_eq!(select_backend(""), "rodio");
    assert_eq!(select_backend("pulseaudio"), "pulseaudio");
}
