//! Slash command parsing: turns a typed command line into a `Command`.

use vstd::prelude::*;
use vstd::string::*;
use crate::text::{
    lower_of, lowercase, parse_u32, parse_u64, split_first, split_once_char, str_eq,
    to_owned_string, trim_chars, trim_str, unsigned_value,
};

verus! {

/// Errors that can occur during command parsing or execution.
#[derive(Debug, Clone, PartialEq, Eq)]
pub enum CommandError {
    Unknown(String),
    InvalidArgument(String),
    MissingArgument(String),
    ExecutionFailed(String),
}

/// Repeat mode argument for parsing.
#[derive(Debug, Clone, Copy, PartialEq, Eq, Structural)]
pub enum RepeatModeArg {
    Off,
    One,
    All,
}

/// Parsed slash command.
#[derive(Debug, Clone, PartialEq, Eq)]
pub enum Command {
    Add { path: String },
    Remove,
    Clear,
    Dedup,
    Save { name: String },
    Load { name: String },
    Shuffle,
    Repeat { mode: Option<RepeatModeArg> },
    Goto { path: String },
    Search { term: String },
    Home,
    Play,
    Pause,
    Stop,
    Next,
    Prev,
    /// Seek to this many seconds from the start of the track.
    Seek { position: u64 },
    Vis,
    Volume { level: Option<u32> },
    Help,
    Quit,
}

/// The command word of a trimmed line: everything before the first space.
pub open spec fn head_word(t: Seq<char>) -> Seq<char> {
    match split_first(t, ' ') {
        Some((a, _b)) => a,
        None => t,
    }
}

/// The argument of a trimmed line: everything after the first space, trimmed.
pub open spec fn tail_args(t: Seq<char>) -> Option<Seq<char>> {
    match split_first(t, ' ') {
        Some((_a, b)) => Some(trim_chars(b)),
        None => None,
    }
}

/// The repeat mode that the text `s` names, if any (case-insensitive).
pub open spec fn repeat_mode_of(s: Seq<char>) -> Option<RepeatModeArg> {
    let l = lower_of(s);
    if l == "off"@ || l == "0"@ {
        Some(RepeatModeArg::Off)
    } else if l == "one"@ || l == "1"@ {
        Some(RepeatModeArg::One)
    } else if l == "all"@ || l == "2"@ {
        Some(RepeatModeArg::All)
    } else {
        None
    }
}

/// Seconds that a time text stands for: `M:SS` (minutes and seconds) or plain seconds.
pub open spec fn time_secs(s: Seq<char>) -> Option<int> {
    let t = trim_chars(s);
    match split_first(t, ':') {
        Some((m, sec)) => match (unsigned_value(m, u64::MAX as nat), unsigned_value(
            sec,
            u64::MAX as nat,
        )) {
            (Some(mv), Some(sv)) => if mv * 60 + sv <= u64::MAX {
                Some((mv * 60 + sv) as int)
            } else {
                None
            },
            _ => None,
        },
        None => match unsigned_value(t, u64::MAX as nat) {
            Some(v) => Some(v as int),
            None => None,
        },
    }
}

pub open spec fn is_missing(r: Result<Command, CommandError>, what: Seq<char>) -> bool {
    r matches Err(CommandError::MissingArgument(m)) && m@ == what
}

pub open spec fn is_invalid(r: Result<Command, CommandError>) -> bool {
    r matches Err(CommandError::InvalidArgument(_))
}

/// `r` is what parsing the command `w` (lower-cased) with argument `a` gives, for the
/// commands that take no argument or an optional one.
pub open spec fn simple_command(w: Seq<char>, a: Option<Seq<char>>, r: Result<Command, CommandError>) -> bool {
    if w == "remove"@ || w == "rm"@ || w == "del"@ {
        r == Ok::<Command, CommandError>(Command::Remove)
    } else if w == "clear"@ || w == "cl"@ {
        r == Ok::<Command, CommandError>(Command::Clear)
    } else if w == "dedup"@ || w == "dedupe"@ || w == "unique"@ {
        r == Ok::<Command, CommandError>(Command::Dedup)
    } else if w == "shuffle"@ || w == "sh"@ {
        r == Ok::<Command, CommandError>(Command::Shuffle)
    } else if w == "repeat"@ || w == "rep"@ {
        match a {
            None => r == Ok::<Command, CommandError>(Command::Repeat { mode: None }),
            Some(x) => match repeat_mode_of(x) {
                Some(m) => r == Ok::<Command, CommandError>(Command::Repeat { mode: Some(m) }),
                None => is_invalid(r),
            },
        }
    } else if w == "home"@ || w == "~"@ {
        r == Ok::<Command, CommandError>(Command::Home)
    } else if w == "play"@ || w == "p"@ {
        r == Ok::<Command, CommandError>(Command::Play)
    } else if w == "pause"@ || w == "pa"@ {
        r == Ok::<Command, CommandError>(Command::Pause)
    } else if w == "stop"@ || w == "st"@ {
        r == Ok::<Command, CommandError>(Command::Stop)
    } else if w == "next"@ || w == "n"@ {
        r == Ok::<Command, CommandError>(Command::Next)
    } else if w == "prev"@ || w == "previous"@ || w == "pr"@ {
        r == Ok::<Command, CommandError>(Command::Prev)
    } else if w == "vis"@ || w == "visualizer"@ {
        r == Ok::<Command, CommandError>(Command::Vis)
    } else if w == "vol"@ || w == "volume"@ {
        r == Ok::<Command, CommandError>(
            Command::Volume {
                level: match a {
                    Some(x) => match unsigned_value(x, u32::MAX as nat) {
                        Some(v) => Some(v as u32),
                        None => None,
                    },
                    None => None,
                },
            },
        )
    } else if w == "help"@ || w == "h"@ {
        r == Ok::<Command, CommandError>(Command::Help)
    } else if w == "quit"@ || w == "q"@ || w == "exit"@ {
        r == Ok::<Command, CommandError>(Command::Quit)
    } else if w.len() == 0 {
        r matches Err(CommandError::Unknown(m)) && m@ == "empty command"@
    } else {
        r matches Err(CommandError::Unknown(m)) && m@ == w
    }
}

/// `r` is what parsing the command line `input` gives.
pub open spec fn parses_to(input: Seq<char>, r: Result<Command, CommandError>) -> bool {
    let t = trim_chars(input);
    let w = lower_of(head_word(t));
    let a = tail_args(t);
    if w == "add"@ || w == "a"@ {
        match a {
            Some(x) => r matches Ok(Command::Add { path }) && path@ == x,
            None => is_missing(r, "path"@),
        }
    } else if w == "save"@ {
        match a {
            Some(x) => r matches Ok(Command::Save { name }) && name@ == x,
            None => is_missing(r, "playlist name"@),
        }
    } else if w == "load"@ {
        match a {
            Some(x) => r matches Ok(Command::Load { name }) && name@ == x,
            None => is_missing(r, "playlist name"@),
        }
    } else if w == "goto"@ || w == "go"@ || w == "cd"@ {
        match a {
            Some(x) => r matches Ok(Command::Goto { path }) && path@ == x,
            None => is_missing(r, "path"@),
        }
    } else if w == "search"@ || w == "find"@ || w == "?"@ {
        match a {
            Some(x) => r matches Ok(Command::Search { term }) && term@ == x,
            None => is_missing(r, "search term"@),
        }
    } else if w == "seek"@ || w == "sk"@ {
        match a {
            Some(x) => match time_secs(x) {
                Some(secs) => r == Ok::<Command, CommandError>(
                    Command::Seek { position: secs as u64 },
                ),
                None => is_invalid(r),
            },
            None => is_missing(r, "time position"@),
        }
    } else {
        simple_command(w, a, r)
    }
}

/// `a` followed by `b`.
fn concat_str(a: &str, b: &str) -> (r: String)
    ensures
        r@ == a@ + b@,
{
    let mut s = String::from_str(a);
    s.append(b);
    s
}

/// Parses a repeat mode name: `off`/`0`, `one`/`1` or `all`/`2`, in any case.
pub fn parse_repeat_mode(s: &str) -> (r: Result<RepeatModeArg, CommandError>)
    ensures
        match repeat_mode_of(s@) {
            Some(m) => r == Ok::<RepeatModeArg, CommandError>(m),
            None => r matches Err(CommandError::InvalidArgument(_)),
        },
{
    let l = lowercase(s);
    let l = l.as_str();
    if str_eq(l, "off") || str_eq(l, "0") {
        Ok(RepeatModeArg::Off)
    } else if str_eq(l, "one") || str_eq(l, "1") {
        Ok(RepeatModeArg::One)
    } else if str_eq(l, "all") || str_eq(l, "2") {
        Ok(RepeatModeArg::All)
    } else {
        let mut msg = concat_str("Invalid repeat mode: '", s);
        msg.append("'. Use 'off', 'one', or 'all'");
        Err(CommandError::InvalidArgument(msg))
    }
}

/// Parses a time such as `1:30` (minutes and seconds) or `90` (seconds) into seconds.
pub fn parse_time(s: &str) -> (r: Result<u64, CommandError>)
    ensures
        match time_secs(s@) {
            Some(v) => r == Ok::<u64, CommandError>(v as u64),
            None => r matches Err(CommandError::InvalidArgument(_)),
        },
{
    let t = trim_str(s);
    match split_once_char(t, ':') {
        Some((min, sec)) => {
            let minutes = match parse_u64(min) {
                Some(m) => m,
                None => {
                    return Err(CommandError::InvalidArgument(concat_str("Invalid minutes: ", min)));
                },
            };
            let seconds = match parse_u64(sec) {
                Some(x) => x,
                None => {
                    return Err(CommandError::InvalidArgument(concat_str("Invalid seconds: ", sec)));
                },
            };
            if minutes > (u64::MAX - seconds) / 60 {
                return Err(CommandError::InvalidArgument(concat_str("Invalid time: ", t)));
            }
            Ok(minutes * 60 + seconds)
        },
        None => match parse_u64(t) {
            Some(x) => Ok(x),
            None => Err(CommandError::InvalidArgument(concat_str("Invalid time: ", t))),
        },
    }
}

fn missing(what: &str) -> (r: Result<Command, CommandError>)
    ensures
        is_missing(r, what@),
{
    Err(CommandError::MissingArgument(to_owned_string(what)))
}

/// Is `w` one of the two names `a`, `b`?
fn is_either(w: &str, a: &str, b: &str) -> (r: bool)
    ensures
        r == (w@ == a@ || w@ == b@),
{
    str_eq(w, a) || str_eq(w, b)
}

/// Is `w` one of the three names `a`, `b`, `c`?
fn is_one_of(w: &str, a: &str, b: &str, c: &str) -> (r: bool)
    ensures
        r == (w@ == a@ || w@ == b@ || w@ == c@),
{
    str_eq(w, a) || str_eq(w, b) || str_eq(w, c)
}

impl Command {
    /// Parses a command line (without the leading `/`): a command word, matched without
    /// regard to case, and an optional argument after the first space.
    pub fn parse(input: &str) -> (r: Result<Command, CommandError>)
        ensures
            parses_to(input@, r),
    {
        let t = trim_str(input);
        let (word, args) = match split_once_char(t, ' ') {
            Some((w, rest)) => (w, Some(trim_str(rest))),
            None => (t, None),
        };
        let lowered = lowercase(word);
        let w = lowered.as_str();
        if is_either(w, "add", "a") {
            match args {
                Some(a) => Ok(Command::Add { path: to_owned_string(a) }),
                None => missing("path"),
            }
        } else if str_eq(w, "save") {
            match args {
                Some(a) => Ok(Command::Save { name: to_owned_string(a) }),
                None => missing("playlist name"),
            }
        } else if str_eq(w, "load") {
            match args {
                Some(a) => Ok(Command::Load { name: to_owned_string(a) }),
                None => missing("playlist name"),
            }
        } else if is_one_of(w, "goto", "go", "cd") {
            match args {
                Some(a) => Ok(Command::Goto { path: to_owned_string(a) }),
                None => missing("path"),
            }
        } else if is_one_of(w, "search", "find", "?") {
            match args {
                Some(a) => Ok(Command::Search { term: to_owned_string(a) }),
                None => missing("search term"),
            }
        } else if is_either(w, "seek", "sk") {
            match args {
                Some(a) => match parse_time(a) {
                    Ok(position) => Ok(Command::Seek { position }),
                    Err(e) => Err(e),
                },
                None => missing("time position"),
            }
        } else {
            Self::parse_simple(w, args)
        }
    }

    /// The commands that take no argument or an optional one.
    fn parse_simple(w: &str, args: Option<&str>) -> (r: Result<Command, CommandError>)
        ensures
            simple_command(
                w@,
                match args {
                    Some(a) => Some(a@),
                    None => None,
                },
                r,
            ),
    {
        if is_one_of(w, "remove", "rm", "del") {
            Ok(Command::Remove)
        } else if is_either(w, "clear", "cl") {
            Ok(Command::Clear)
        } else if is_one_of(w, "dedup", "dedupe", "unique") {
            Ok(Command::Dedup)
        } else if is_either(w, "shuffle", "sh") {
            Ok(Command::Shuffle)
        } else if is_either(w, "repeat", "rep") {
            match args {
                None => Ok(Command::Repeat { mode: None }),
                Some(a) => match parse_repeat_mode(a) {
                    Ok(m) => Ok(Command::Repeat { mode: Some(m) }),
                    Err(e) => Err(e),
                },
            }
        } else if is_either(w, "home", "~") {
            Ok(Command::Home)
        } else if is_either(w, "play", "p") {
            Ok(Command::Play)
        } else if is_either(w, "pause", "pa") {
            Ok(Command::Pause)
        } else if is_either(w, "stop", "st") {
            Ok(Command::Stop)
        } else if is_either(w, "next", "n") {
            Ok(Command::Next)
        } else if is_one_of(w, "prev", "previous", "pr") {
            Ok(Command::Prev)
        } else if is_either(w, "vis", "visualizer") {
            Ok(Command::Vis)
        } else if is_either(w, "vol", "volume") {
            let level = match args {
                Some(a) => parse_u32(a),
                None => None,
            };
            Ok(Command::Volume { level })
        } else if is_either(w, "help", "h") {
            Ok(Command::Help)
        } else if is_one_of(w, "quit", "q", "exit") {
            Ok(Command::Quit)
        } else if w.unicode_len() == 0 {
            Err(CommandError::Unknown(to_owned_string("empty command")))
        } else {
            Err(CommandError::Unknown(to_owned_string(w)))
        }
    }
}

/// One-line description of each command, for the help text.
pub open spec fn description_of(c: Command) -> Seq<char> {
    match c {
            Command::Add { .. } => "Add file/folder to playlist"@,
            Command::Remove => "Remove selected track"@,
            Command::Clear => "Clear playlist"@,
            Command::Dedup => "Remove duplicate tracks"@,
            Command::Save { .. } => "Save playlist"@,
            Command::Load { .. } => "Load playlist"@,
            Command::Shuffle => "Toggle shuffle"@,
            Command::Repeat { .. } => "Set repeat mode"@,
            Command::Goto { .. } => "Navigate to path"@,
            Command::Search { .. } => "Search/filter"@,
            Command::Home => "Go to home directory"@,
            Command::Play => "Play selected track"@,
            Command::Pause => "Pause playback"@,
            Command::Stop => "Stop playback"@,
            Command::Next => "Next track"@,
            Command::Prev => "Previous track"@,
            Command::Seek { .. } => "Seek to position"@,
            Command::Vis => "Toggle visualizer"@,
            Command::Volume { .. } => "Set volume (0-100)"@,
            Command::Help => "Show help"@,
            Command::Quit => "Quit application"@,
    }
}

impl Command {
    /// Returns a brief description of the command for help text.
    pub fn description(&self) -> (r: &'static str)
        ensures
            r@ == description_of(*self),
    {
        match self {
            Command::Add { .. } => "Add file/folder to playlist",
            Command::Remove => "Remove selected track",
            Command::Clear => "Clear playlist",
            Command::Dedup => "Remove duplicate tracks",
            Command::Save { .. } => "Save playlist",
            Command::Load { .. } => "Load playlist",
            Command::Shuffle => "Toggle shuffle",
            Command::Repeat { .. } => "Set repeat mode",
            Command::Goto { .. } => "Navigate to path",
            Command::Search { .. } => "Search/filter",
            Command::Home => "Go to home directory",
            Command::Play => "Play selected track",
            Command::Pause => "Pause playback",
            Command::Stop => "Stop playback",
            Command::Next => "Next track",
            Command::Prev => "Previous track",
            Command::Seek { .. } => "Seek to position",
            Command::Vis => "Toggle visualizer",
            Command::Volume { .. } => "Set volume (0-100)",
            Command::Help => "Show help",
            Command::Quit => "Quit application",
        }
    }
}

/// The help text: every command with a one-line description.
pub open spec fn help_spec() -> Seq<char> {
    r#"Playlist Commands:
  /add <path>     Add file/folder to playlist
  /remove         Remove selected track
  /clear          Clear playlist
  /dedup          Remove duplicate tracks
  /shuffle        Toggle shuffle mode
  /repeat [mode]  Set repeat (off/one/all)

Navigation Commands:
  /goto <path>    Navigate browser to path
  /search <term>  Filter current view
  /home           Go to home directory

Playback Commands:
  /play           Play selected track
  /pause          Pause playback
  /stop           Stop playback
  /next           Next track
  /prev           Previous track
  /seek <time>    Seek to position (e.g., 1:30)

Other Commands:
  /vis            Toggle visualizer      [v]
  /vol [0-100]    Set volume             [+/-]
  /help           Show this help         [?]
  /quit           Exit oxidio            [q]"#@
}

/// Returns help text listing all available commands.
pub fn help_text() -> (r: &'static str)
    ensures
        r@ == help_spec(),
{
    r#"Playlist Commands:
  /add <path>     Add file/folder to playlist
  /remove         Remove selected track
  /clear          Clear playlist
  /dedup          Remove duplicate tracks
  /shuffle        Toggle shuffle mode
  /repeat [mode]  Set repeat (off/one/all)

Navigation Commands:
  /goto <path>    Navigate browser to path
  /search <term>  Filter current view
  /home           Go to home directory

Playback Commands:
  /play           Play selected track
  /pause          Pause playback
  /stop           Stop playback
  /next           Next track
  /prev           Previous track
  /seek <time>    Seek to position (e.g., 1:30)

Other Commands:
  /vis            Toggle visualizer      [v]
  /vol [0-100]    Set volume             [+/-]
  /help           Show this help         [?]
  /quit           Exit oxidio            [q]"#
}

} // verus!
