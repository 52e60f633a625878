use oxidio::playlist::RepeatMode;
use oxidio::session::{format_session, parse_session, session_file, SessionState};

fn state() -> SessionState {
    SessionState {
        playlist_name: String::from("road trip"),
        track_index: Some(12),
        shuffle: true,
        repeat: RepeatMode::All,
        volume_percent: 85,
    }
}

#[test]
fn session_text_format() {
    assert_eq!(
        format_session(&state()),
        "playlist=road trip\ntrack=12\nshuffle=1\nrepeat=all\nvolume=85\n"
    );
    let mut s = state();
    s.track_index = None;
    s.volume_percent = -5;
    s.shuffle = false;
    s.repeat = RepeatMode::Off;
    assert_eq!(format_session(&s), "playlist=road trip\ntrack=\nshuffle=0\nrepeat=off\nvolume=-5\n");
}

#[test]
fn session_round_trip() {
    assert_eq!(parse_session(&format_session(&state())), Some(state()));
}

#[test]
fn session_parse_defaults_and_errors() {
    assert_eq!(parse_session("track=3\n"), None);
    let s = parse_session(" playlist = mix \r\nrepeat=2\nvolume=loud\nnoise\nother=1").unwrap();
    assert_eq!(s.playlist_name, "mix");
    assert_eq!(s.repeat, RepeatMode::All);
    assert_eq!(s.volume_percent, 100);
    assert_eq!(s.track_index, None);
    assert!(!s.shuffle);
}

#[test]
fn session_file_path() {
    assert_eq!(session_file(Some(String::from("/data/pl"))), Some(String::from("/data/pl/.session")));
    assert_eq!(session_file(Some(String::from("/data/pl/"))), Some(String::from("/data/pl/.session")));
    assert_eq!(session_file(None), None);
}
