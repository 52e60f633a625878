use oxidio::command::{help_text, parse_repeat_mode, parse_time, Command, CommandError, RepeatModeArg};

#[test]
fn test_parse_add() {
    let cmd = Command::parse("add /path/to/file.mp3").unwrap();
    assert_eq!(cmd, Command::Add { path: String::from("/path/to/file.mp3") });
}

#[test]
fn test_parse_add_alias() {
    let cmd = Command::parse("a /music").unwrap();
    assert_eq!(cmd, Command::Add { path: String::from("/music") });
}

#[test]
fn test_parse_seek() {
    let cmd = Command::parse("seek 1:30").unwrap();
    assert_eq!(cmd, Command::Seek { position: 90 });
}

#[test]
fn test_parse_seek_seconds() {
    let cmd = Command::parse("seek 45").unwrap();
    assert_eq!(cmd, Command::Seek { position: 45 });
}

#[test]
fn test_parse_repeat_with_mode() {
    let cmd = Command::parse("repeat all").unwrap();
    assert_eq!(cmd, Command::Repeat { mode: Some(RepeatModeArg::All) });
}

#[test]
fn test_parse_repeat_toggle() {
    let cmd = Command::parse("repeat").unwrap();
    assert_eq!(cmd, Command::Repeat { mode: None });
}

#[test]
fn test_parse_unknown() {
    let result = Command::parse("foobar");
    assert!(matches!(result, Err(CommandError::Unknown(_))));
}

#[test]
fn test_parse_missing_arg() {
    let result = Command::parse("add");
    assert!(matches!(result, Err(CommandError::MissingArgument(_))));
}

#[test]
fn parse_is_case_insensitive_and_trims() {
    let cmd = Command::parse("  ADD   /Music/Song.flac  ").unwrap();
    assert_eq!(cmd, Command::Add { path: String::from("/Music/Song.flac") });
}

#[test]
fn parse_unknown_names_lowered_word() {
    assert_eq!(Command::parse("FooBar x"), Err(CommandError::Unknown(String::from("foobar"))));
}

#[test]
fn parse_empty_line() {
    assert_eq!(Command::parse("   "), Err(CommandError::Unknown(String::from("empty command"))));
}

#[test]
fn parse_missing_arguments_name_what_is_missing() {
    assert_eq!(Command::parse("save"), Err(CommandError::MissingArgument(String::from("playlist name"))));
    assert_eq!(Command::parse("find"), Err(CommandError::MissingArgument(String::from("search term"))));
    assert_eq!(Command::parse("sk"), Err(CommandError::MissingArgument(String::from("time position"))));
}

#[test]
fn parse_arguments_of_named_commands() {
    assert_eq!(Command::parse("load Road Trip").unwrap(), Command::Load { name: String::from("Road Trip") });
    assert_eq!(Command::parse("cd \\\\server\\share").unwrap(), Command::Goto { path: String::from("\\\\server\\share") });
    assert_eq!(Command::parse("? beatles").unwrap(), Command::Search { term: String::from("beatles") });
}

#[test]
fn parse_simple_commands_and_aliases() {
    assert_eq!(Command::parse("rm").unwrap(), Command::Remove);
    assert_eq!(Command::parse("unique").unwrap(), Command::Dedup);
    assert_eq!(Command::parse("~").unwrap(), Command::Home);
    assert_eq!(Command::parse("previous").unwrap(), Command::Prev);
    assert_eq!(Command::parse("exit").unwrap(), Command::Quit);
    assert_eq!(Command::parse("Visualizer").unwrap(), Command::Vis);
}

#[test]
fn parse_volume_levels() {
    assert_eq!(Command::parse("vol 75").unwrap(), Command::Volume { level: Some(75) });
    assert_eq!(Command::parse("vol loud").unwrap(), Command::Volume { level: None });
    assert_eq!(Command::parse("volume").unwrap(), Command::Volume { level: None });
}

#[test]
fn parse_bad_repeat_mode_is_invalid_argument() {
    assert_eq!(
        Command::parse("repeat sometimes"),
        Err(CommandError::InvalidArgument(String::from(
            "Invalid repeat mode: 'sometimes'. Use 'off', 'one', or 'all'"
        )))
    );
}

#[test]
fn repeat_mode_names_and_digits() {
    assert_eq!(parse_repeat_mode("OFF"), Ok(RepeatModeArg::Off));
    assert_eq!(parse_repeat_mode("1"), Ok(RepeatModeArg::One));
    assert_eq!(parse_repeat_mode("2"), Ok(RepeatModeArg::All));
}

#[test]
fn time_formats_and_errors() {
    assert_eq!(parse_time("2:05"), Ok(125));
    assert_eq!(parse_time(" 7 "), Ok(7));
    assert!(matches!(parse_time("x:10"), Err(CommandError::InvalidArgument(_))));
    assert!(matches!(parse_time("1:y"), Err(CommandError::InvalidArgument(_))));
    assert!(matches!(parse_time("-3"), Err(CommandError::InvalidArgument(_))));
    assert!(matches!(parse_time("18446744073709551615:0"), Err(CommandError::InvalidArgument(_))));
}

#[test]
fn descriptions_and_help() {
    assert_eq!(Command::Dedup.description(), "Remove duplicate tracks");
    assert_eq!(Command::Volume { level: None }.description(), "Set volume (0-100)");
    assert!(help_text().contains("/seek <time>"));
}
