use grass_player::{PlaybackState, PlayerError, SampleRate, Session};

fn three_tracks() -> Vec<String> {
    vec!["a.flac".to_string(), "b.flac".to_string(), "c.flac".to_string()]
}

#[test]
fn fresh_session_is_stopped_with_no_path() {
    let s = Session::new(SampleRate::Hz44100).unwrap();
    assert_eq!(s.playback_state().unwrap(), PlaybackState::Stopped);
    assert_eq!(s.source_path().unwrap(), None);
    assert_eq!(s.sources_size(), 0);
    assert_eq!(s.source_index(), 0);
    assert_eq!(s.source_position(), 0);
}

#[test]
fn play_moves_to_playing_and_is_idempotent() {
    let mut s = Session::new(SampleRate::Hz44100).unwrap();
    s.set_sources(&three_tracks()).unwrap();
    assert_eq!(s.playback_state().unwrap(), PlaybackState::Stopped);
    s.play().unwrap();
    assert_eq!(s.playback_state().unwrap(), PlaybackState::Playing);
    s.play().unwrap();
    assert_eq!(s.playback_state().unwrap(), PlaybackState::Playing);
}

#[test]
fn pause_only_affects_a_playing_transport() {
    let mut s = Session::new(SampleRate::Hz44100).unwrap();
    s.set_sources(&three_tracks()).unwrap();
    s.pause().unwrap();
    assert_eq!(s.playback_state().unwrap(), PlaybackState::Stopped);
    s.play().unwrap();
    s.pause().unwrap();
    assert_eq!(s.playback_state().unwrap(), PlaybackState::Paused);
    s.pause().unwrap();
    assert_eq!(s.playback_state().unwrap(), PlaybackState::Paused);
}

#[test]
fn stop_rewinds_and_stops_from_any_state() {
    let mut s = Session::new(SampleRate::Hz44100).unwrap();
    s.set_sources(&three_tracks()).unwrap();
    s.play().unwrap();
    s.seek(1500).unwrap();
    assert_eq!(s.source_position(), 1500);
    s.stop().unwrap();
    assert_eq!(s.playback_state().unwrap(), PlaybackState::Stopped);
    assert_eq!(s.source_position(), 0);
}

#[test]
fn skip_to_selects_the_submitted_path() {
    let mut s = Session::new(SampleRate::Hz44100).unwrap();
    s.set_sources(&three_tracks()).unwrap();
    s.skip_to(2).unwrap();
    assert_eq!(s.source_index(), 2);
    assert_eq!(s.source_path().unwrap(), Some("c.flac".to_string()));
    s.skip_to(0).unwrap();
    assert_eq!(s.source_index(), 0);
    assert_eq!(s.source_path().unwrap(), Some("a.flac".to_string()));
}

#[test]
fn skip_to_out_of_range_is_a_no_op() {
    let mut s = Session::new(SampleRate::Hz44100).unwrap();
    s.set_sources(&three_tracks()).unwrap();
    s.skip_to(1).unwrap();
    s.seek(700).unwrap();
    s.skip_to(3).unwrap();
    assert_eq!(s.source_index(), 1);
    assert_eq!(s.source_position(), 700);
}

#[test]
fn previous_and_next_clamp_at_the_ends() {
    let mut s = Session::new(SampleRate::Hz44100).unwrap();
    s.set_sources(&three_tracks()).unwrap();
    s.previous().unwrap();
    assert_eq!(s.source_index(), 0);
    s.next().unwrap();
    assert_eq!(s.source_index(), 1);
    s.next().unwrap();
    s.next().unwrap();
    assert_eq!(s.source_index(), 2);
    s.previous().unwrap();
    assert_eq!(s.source_index(), 1);
}

#[test]
fn seek_stores_the_requested_position() {
    let mut s = Session::new(SampleRate::Hz44100).unwrap();
    s.set_sources(&three_tracks()).unwrap();
    s.seek(123456).unwrap();
    assert_eq!(s.source_position(), 123456);
}

#[test]
fn duration_is_the_unknown_marker() {
    let mut s = Session::new(SampleRate::Hz44100).unwrap();
    s.set_sources(&three_tracks()).unwrap();
    assert_eq!(s.source_duration(), 0);
}

#[test]
fn close_consumes_the_session() {
    let mut s = Session::new(SampleRate::Hz48000).unwrap();
    s.set_sources(&three_tracks()).unwrap();
    s.play().unwrap();
    assert_eq!(s.close(), Ok(()));
}

#[test]
fn submission_stops_playback_and_rewinds() {
    let mut s = Session::new(SampleRate::Hz44100).unwrap();
    s.set_sources(&three_tracks()).unwrap();
    s.play().unwrap();
    s.skip_to(2).unwrap();
    s.set_sources(&vec!["d.flac".to_string()]).unwrap();
    assert_eq!(s.playback_state().unwrap(), PlaybackState::Stopped);
    assert_eq!(s.source_index(), 0);
    assert_eq!(s.sources_size(), 1);
    assert_eq!(s.source_path().unwrap(), Some("d.flac".to_string()));
}

#[test]
fn transport_errors_never_surface_from_the_reference_engine() {
    let mut s = Session::new(SampleRate::Hz192000).unwrap();
    assert_eq!(s.play(), Ok(()));
    assert_eq!(s.pause(), Ok(()));
    assert_eq!(s.stop(), Ok(()));
    assert_eq!(s.seek(5), Ok(()));
    assert_eq!(s.skip_to(0), Ok(()));
    assert_eq!(s.previous(), Ok(()));
    assert_eq!(s.next(), Ok(()));
    let r: Result<(), PlayerError> = s.close();
    assert_eq!(r, Ok(()));
}
