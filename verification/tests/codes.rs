use grass_player::{
    map_result, PlaybackState, PlayerError, SampleRate, RESULT_OK, STATUS_PAUSED, STATUS_PLAYING,
    STATUS_STOPPED,
};

#[test]
fn status_codewords_decode_to_their_states() {
    assert_eq!(PlaybackState::from_status(STATUS_STOPPED), Ok(PlaybackState::Stopped));
    assert_eq!(PlaybackState::from_status(STATUS_PLAYING), Ok(PlaybackState::Playing));
    assert_eq!(PlaybackState::from_status(STATUS_PAUSED), Ok(PlaybackState::Paused));
}

#[test]
fn unknown_status_codeword_is_a_typed_error() {
    assert_eq!(PlaybackState::from_status(3), Err(PlayerError::UnknownVariant));
    assert_eq!(PlaybackState::from_status(u32::MAX), Err(PlayerError::UnknownVariant));
}

#[test]
fn supported_rates_round_trip_through_hertz() {
    let rates = [
        (SampleRate::Hz44100, 44100),
        (SampleRate::Hz48000, 48000),
        (SampleRate::Hz88200, 88200),
        (SampleRate::Hz96000, 96000),
        (SampleRate::Hz192000, 192000),
    ];
    for (rate, hz) in rates {
        assert_eq!(rate.as_hz(), hz);
        assert_eq!(SampleRate::from_hz(hz), Ok(rate));
    }
}

#[test]
fn unsupported_rate_is_a_typed_error() {
    assert_eq!(SampleRate::from_hz(22050), Err(PlayerError::UnknownVariant));
    assert_eq!(SampleRate::from_hz(0), Err(PlayerError::UnknownVariant));
}

#[test]
fn result_codewords_map_to_the_assigned_kind() {
    assert_eq!(map_result(RESULT_OK, PlayerError::InitFailed), Ok(()));
    assert_eq!(map_result(1, PlayerError::InitFailed), Err(PlayerError::InitFailed));
    assert_eq!(map_result(7, PlayerError::Internal), Err(PlayerError::Internal));
    assert_eq!(
        map_result(2, PlayerError::TerminateFailed),
        Err(PlayerError::TerminateFailed)
    );
}

#[test]
fn every_error_kind_has_its_message() {
    assert_eq!(PlayerError::InitFailed.message(), "failed to initialize player");
    assert_eq!(PlayerError::TerminateFailed.message(), "failed to close player");
    assert_eq!(PlayerError::InvalidPath.message(), "invalid path");
    assert_eq!(
        PlayerError::LockResourceFailed.message(),
        "failed to lock player resource"
    );
    assert_eq!(PlayerError::Internal.message(), "internal error");
    assert_eq!(PlayerError::UnknownVariant.message(), "unknown engine status");
}
