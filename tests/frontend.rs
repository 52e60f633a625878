use oxidio::browser::{order_listing, FileBrowser};
use oxidio::command::RepeatModeArg;
use oxidio::controls::{repeat_after, select_next_row, select_previous_row, selection_after_remove, volume_level};
use oxidio::playlist::RepeatMode;
use oxidio::decoder::{approximate_bitrate, parse_year, AudioMetadata, TagKey};
use oxidio::input::{InputBuffer, InputMode};
use oxidio::library::{is_audio_extension, is_network_path, read_ahead_len, LibraryScanner};
use oxidio::settings::Settings;
use oxidio::view::{ViewMode, VisualizerStyle};

#[test]
fn input_buffer_editing() {
    let mut b = InputBuffer::new();
    assert!(b.is_empty());
    b.insert('a');
    b.insert('é');
    b.insert('c');
    assert_eq!(b.content(), "aéc");
    assert_eq!(b.cursor(), 4);
    assert_eq!(b.cursor_char_pos(), 3);
    b.move_left();
    assert_eq!(b.cursor(), 3);
    b.backspace();
    assert_eq!(b.content(), "ac");
    assert_eq!(b.cursor(), 1);
    b.delete();
    assert_eq!(b.content(), "a");
    b.move_home();
    assert_eq!(b.cursor(), 0);
    b.move_right();
    b.move_right();
    assert_eq!(b.cursor(), 1);
    b.move_end();
    b.clear();
    assert!(b.is_empty());
    assert_eq!(InputMode::default(), InputMode::Normal);
}

#[test]
fn library_roots_have_no_duplicates() {
    let mut l = LibraryScanner::new();
    l.add_root(String::from("/music"));
    l.add_root(String::from("/music"));
    l.add_root(String::from("\\\\nas\\music"));
    assert_eq!(l.roots().len(), 2);
    assert!(l.remove_root("/music"));
    assert!(!l.remove_root("/music"));
    assert_eq!(l.roots(), &[String::from("\\\\nas\\music")][..]);
}

#[test]
fn network_paths_and_extensions() {
    assert!(is_network_path("\\\\server\\share"));
    assert!(is_network_path("//server/share"));
    assert!(!is_network_path("/home/me"));
    assert_eq!(read_ahead_len("\\\\server\\x.mp3"), 256 * 1024);
    assert_eq!(read_ahead_len("/x.mp3"), 64 * 1024);
    assert!(is_audio_extension("FLAC"));
    assert!(!is_audio_extension("txt"));
}

#[test]
fn metadata_first_tag_wins() {
    let mut m = AudioMetadata::new();
    m.apply_tag(TagKey::TrackTitle, String::from("One"));
    m.apply_tag(TagKey::TrackTitle, String::from("Two"));
    m.apply_tag(TagKey::Date, String::from("2023-01-15"));
    m.apply_tag(TagKey::ReleaseDate, String::from("1999"));
    m.apply_tag(TagKey::TrackNumber, String::from("7"));
    m.apply_tag(TagKey::Other, String::from("ignored"));
    assert_eq!(m.title, Some(String::from("One")));
    assert_eq!(m.year, Some(2023));
    assert_eq!(m.track_number, Some(7));
    assert_eq!(parse_year("abc"), None);
    assert_eq!(approximate_bitrate(16, 44100, 2), 1411);
}

#[test]
fn views_cycle() {
    assert_eq!(VisualizerStyle::LevelMeter.next(), VisualizerStyle::Bars);
    assert_eq!(VisualizerStyle::LevelMeter.name(), "Level Meter");
    assert_eq!(ViewMode::Settings.next_tab(), ViewMode::Playlist);
    assert_eq!(ViewMode::Playlist.prev_tab(), ViewMode::Settings);
    assert_eq!(ViewMode::Help.next_tab(), ViewMode::Help);
    let d = Settings::default();
    assert!(d.discord_enabled && d.smtc_enabled);
}

#[test]
fn command_effects() {
    assert_eq!(repeat_after(None, RepeatMode::Off), RepeatMode::One);
    assert_eq!(repeat_after(None, RepeatMode::All), RepeatMode::Off);
    assert_eq!(repeat_after(Some(RepeatModeArg::All), RepeatMode::One), RepeatMode::All);
    assert_eq!(volume_level(150), 100);
    assert_eq!(volume_level(40), 40);
    assert_eq!(select_next_row(Some(2), 3), Some(0));
    assert_eq!(select_next_row(None, 3), Some(0));
    assert_eq!(select_previous_row(Some(0), 3), Some(2));
    assert_eq!(select_previous_row(Some(1), 0), Some(1));
    assert_eq!(selection_after_remove(3, 3), Some(2));
    assert_eq!(selection_after_remove(0, 0), None);
    assert_eq!(selection_after_remove(1, 3), Some(1));
}

#[test]
fn browser_goes_up_through_parent_entry() {
    let mut b = FileBrowser::new(String::from("/m/x"), order_listing(Some(String::from("/m")), Vec::new()));
    assert_eq!(b.parent_dir(), Some(String::from("/m")));
    assert!(b.go_up(Vec::new()));
    assert_eq!(b.current_dir(), "/m");
    assert!(!b.go_up(Vec::new()));
}
