use oxidio::player::{
    backpressure_threshold, decode_step, interleave, keep_draining, seek_start_frame, split_channels,
    DecodeStep, PlaybackControl, PlaybackState, PlayerError,
};

#[test]
fn end_of_stream_with_empty_buffer_ends_track_and_stops() {
    let mut c = PlaybackControl::new();
    c.start(String::from("/a.flac"), 44100, 0, Some(1000), false);
    assert_eq!(c.state(), PlaybackState::Playing);
    assert!(!c.track_ended());
    // the decoder saw end of stream and the buffer is empty: no more waiting
    assert!(!keep_draining(true, false));
    c.finish();
    assert!(c.track_ended());
    assert_eq!(c.state(), PlaybackState::Stopped);
    assert_eq!(c.current_track(), Some(String::from("/a.flac")));
}

#[test]
fn draining_waits_for_samples_unless_stopped() {
    assert!(keep_draining(false, false));
    assert!(!keep_draining(false, true));
}

#[test]
fn pause_resume_stop_transitions() {
    let mut c = PlaybackControl::new();
    assert!(!c.pause());
    assert_eq!(c.state(), PlaybackState::Stopped);
    c.start(String::from("x"), 48000, 0, None, false);
    assert!(c.pause());
    assert_eq!(c.state(), PlaybackState::Paused);
    assert!(c.resume());
    assert_eq!(c.state(), PlaybackState::Playing);
    c.stop();
    assert_eq!(c.state(), PlaybackState::Stopped);
    assert_eq!(c.current_track(), None);
    c.stop();
    assert_eq!(c.state(), PlaybackState::Stopped);
    assert_eq!(c.seek_target(), Err(PlayerError::NoTrack));
}

#[test]
fn position_counts_frames_over_rate() {
    let mut c = PlaybackControl::new();
    assert_eq!(c.position_ms(), 0);
    c.start(String::from("x"), 44100, 0, Some(5000), false);
    c.record_frames(44100);
    c.record_frames(22050);
    assert_eq!(c.position_ms(), 1500);
    assert_eq!(c.duration_ms(), Some(5000));
}

#[test]
fn seek_starts_at_requested_position_and_keeps_pause() {
    let mut c = PlaybackControl::new();
    c.start(String::from("song"), 48000, 0, None, false);
    c.pause();
    let (path, was_playing) = c.seek_target().unwrap();
    assert_eq!(path, "song");
    assert!(!was_playing);
    let frame = seek_start_frame(90_000, 48000);
    assert_eq!(frame, 4_320_000);
    c.stop();
    c.start(path, 48000, frame, None, !was_playing);
    assert_eq!(c.state(), PlaybackState::Paused);
    assert_eq!(c.position_ms(), 90_000);
}

#[test]
fn decode_loop_decisions() {
    assert_eq!(decode_step(true, true, 0, 10), DecodeStep::Exit);
    assert_eq!(decode_step(false, true, 0, 10), DecodeStep::WaitPaused);
    assert_eq!(decode_step(false, false, 11, 10), DecodeStep::WaitBackpressure);
    assert_eq!(decode_step(false, false, 10, 10), DecodeStep::Decode);
    assert_eq!(backpressure_threshold(44100, 2), 4410);
}

#[test]
fn interleave_and_split_are_inverse() {
    let planar = vec![vec![1, 3, 5], vec![2, 4, 6]];
    let inter = interleave(&planar);
    assert_eq!(inter, vec![1, 2, 3, 4, 5, 6]);
    assert_eq!(split_channels(&inter, 2), planar);
    assert_eq!(split_channels(&[1, 2, 3, 4, 5], 2), vec![vec![1, 3, 5], vec![2, 4]]);
    let empty: Vec<Vec<i32>> = Vec::new();
    assert!(interleave(&empty).is_empty());
}
