use grass_player::{PlaybackState, Player, PlayerError, SampleRate, Session};

#[test]
fn basic_playback() {
    let player =
        Player::new(SampleRate::Hz44100).expect("failed to initialize player");

    let tracks = vec![
        "01_Ghosts_I.flac".to_string(),
        "24_Ghosts_III.flac".to_string(),
        "25_Ghosts_III.flac".to_string(),
    ];
    player.set_sources(&tracks).unwrap();

    player.play().unwrap();
    assert_eq!(player.playback_state().unwrap(), PlaybackState::Playing);

    player.pause().unwrap();
    assert_eq!(player.playback_state().unwrap(), PlaybackState::Paused);

    player.close().expect("failed to close player");
}

#[test]
fn lib_basic_playback() {
    let mut player = Session::new(SampleRate::Hz44100).expect("failed to initialize player");

    let tracks = vec![
        "01_Ghosts_I.flac".to_string(),
        "24_Ghosts_III.flac".to_string(),
        "25_Ghosts_III.flac".to_string(),
    ];
    player.set_sources(&tracks).unwrap();

    player.play().unwrap();
    assert_eq!(player.playback_state().unwrap(), PlaybackState::Playing);

    player.pause().unwrap();
    assert_eq!(player.playback_state().unwrap(), PlaybackState::Paused);

    player.close().expect("failed to close player");
}

#[test]
fn end_to_end_transport_run() {
    let player = Player::new(SampleRate::Hz44100).unwrap();
    let tracks = vec!["a.flac".to_string(), "b.flac".to_string(), "c.flac".to_string()];
    player.set_sources(&tracks).unwrap();

    player.play().unwrap();
    assert_eq!(player.playback_state().unwrap(), PlaybackState::Playing);

    player.skip_to(1).unwrap();
    assert_eq!(player.source_path().unwrap(), Some("b.flac".to_string()));

    player.pause().unwrap();
    assert_eq!(player.playback_state().unwrap(), PlaybackState::Paused);

    // Teardown consumes the player: the type itself forbids any call
    // after close, so "subsequent calls" cannot even be written.
    player.close().unwrap();
}

#[test]
fn facade_reports_queries_like_the_session() {
    let player = Player::new(SampleRate::Hz96000).unwrap();
    assert_eq!(player.playback_state().unwrap(), PlaybackState::Stopped);
    assert_eq!(player.source_path().unwrap(), None);
    assert_eq!(player.sources_size(), 0);
    assert_eq!(player.source_index(), 0);
    assert_eq!(player.source_position(), 0);
    assert_eq!(player.source_duration(), 0);
}

#[test]
fn facade_submission_is_all_or_nothing() {
    let player = Player::new(SampleRate::Hz44100).unwrap();
    player.set_sources(&vec!["keep.flac".to_string()]).unwrap();
    let bad = vec!["bad\0path.flac".to_string()];
    assert_eq!(player.set_sources(&bad), Err(PlayerError::InvalidPath));
    assert_eq!(player.sources_size(), 1);
    assert_eq!(player.source_path().unwrap(), Some("keep.flac".to_string()));
}

#[test]
fn facade_transport_matches_the_state_machine() {
    let player = Player::new(SampleRate::Hz44100).unwrap();
    player.set_sources(&vec!["a.flac".to_string(), "b.flac".to_string()]).unwrap();

    player.pause().unwrap();
    assert_eq!(player.playback_state().unwrap(), PlaybackState::Stopped);

    player.play().unwrap();
    player.play().unwrap();
    assert_eq!(player.playback_state().unwrap(), PlaybackState::Playing);

    player.next().unwrap();
    assert_eq!(player.source_index(), 1);
    player.next().unwrap();
    assert_eq!(player.source_index(), 1);
    player.previous().unwrap();
    assert_eq!(player.source_index(), 0);

    player.seek(2500).unwrap();
    assert_eq!(player.source_position(), 2500);

    player.stop().unwrap();
    assert_eq!(player.playback_state().unwrap(), PlaybackState::Stopped);
    assert_eq!(player.source_position(), 0);
}
