//! The session file: `key=value` lines holding the queue name, track index, shuffle flag,
//! repeat mode and volume (integer percent), written at shutdown and read at startup.

use vstd::prelude::*;
use vstd::string::*;
use crate::playlist::RepeatMode;
use crate::text::{
    chars_of, decimal_of, i32_value, parse_i32, parse_usize, push_char, push_decimal,
    split_first, split_once_char, str_eq, string_of_chars, to_owned_string, trim_chars,
    trim_str, unsigned_value,
};

verus! {

/// Session state kept across restarts.
#[derive(Debug, Clone, PartialEq, Eq)]
pub struct SessionState {
    pub playlist_name: String,
    pub track_index: Option<usize>,
    pub shuffle: bool,
    pub repeat: RepeatMode,
    /// Volume in percent (100 is unchanged level).
    pub volume_percent: i32,
}

/// Abstract content of a session file while it is read.
pub ghost struct SessionFields {
    pub name: Seq<char>,
    pub track: Option<usize>,
    pub shuffle: bool,
    pub repeat: RepeatMode,
    pub volume: i32,
}

/// What reading starts from: no name, no track, shuffle off, repeat off, full volume.
pub open spec fn initial_fields() -> SessionFields {
    SessionFields { name: Seq::empty(), track: None, shuffle: false, repeat: RepeatMode::Off, volume: 100 }
}

/// The repeat mode a session value names; anything unknown is Off.
pub open spec fn repeat_of_value(v: Seq<char>) -> RepeatMode {
    if v == "one"@ || v == "1"@ {
        RepeatMode::One
    } else if v == "all"@ || v == "2"@ {
        RepeatMode::All
    } else {
        RepeatMode::Off
    }
}

/// The effect of one line: `key=value` with both sides trimmed; unknown keys and lines
/// without `=` change nothing.
pub open spec fn apply_line(f: SessionFields, line: Seq<char>) -> SessionFields {
    match split_first(line, '=') {
        None => f,
        Some((k, v)) => {
            let key = trim_chars(k);
            let val = trim_chars(v);
            if key == "playlist"@ {
                SessionFields { name: val, ..f }
            } else if key == "track"@ {
                SessionFields {
                    track: match unsigned_value(val, usize::MAX as nat) {
                        Some(n) => Some(n as usize),
                        None => None,
                    },
                    ..f
                }
            } else if key == "shuffle"@ {
                SessionFields { shuffle: val == "1"@, ..f }
            } else if key == "repeat"@ {
                SessionFields { repeat: repeat_of_value(val), ..f }
            } else if key == "volume"@ {
                SessionFields {
                    volume: match i32_value(val) {
                        Some(n) => n as i32,
                        None => 100,
                    },
                    ..f
                }
            } else {
                f
            }
        },
    }
}

/// Fields after reading `text`, starting from `f` with `cur` as the current line so far.
pub open spec fn fields_from(text: Seq<char>, f: SessionFields, cur: Seq<char>) -> SessionFields
    decreases text.len(),
{
    if text.len() == 0 {
        apply_line(f, cur)
    } else if text[0] == '\n' {
        fields_from(text.drop_first(), apply_line(f, cur), Seq::empty())
    } else {
        fields_from(text.drop_first(), f, cur.push(text[0]))
    }
}

/// The fields a session file's text holds.
pub open spec fn session_fields(text: Seq<char>) -> SessionFields {
    fields_from(text, initial_fields(), Seq::empty())
}

pub open spec fn repeat_name(r: RepeatMode) -> Seq<char> {
    match r {
        RepeatMode::Off => "off"@,
        RepeatMode::One => "one"@,
        RepeatMode::All => "all"@,
    }
}

/// Decimal text of a signed number.
pub open spec fn signed_decimal(v: int) -> Seq<char> {
    if v < 0 {
        seq!['-'] + decimal_of((-v) as nat)
    } else {
        decimal_of(v as nat)
    }
}

/// The text of the session file for `st`.
pub open spec fn session_text(st: SessionState) -> Seq<char> {
    "playlist="@ + st.playlist_name@ + seq!['\n'] + "track="@ + match st.track_index {
        Some(i) => decimal_of(i as nat),
        None => Seq::empty(),
    } + seq!['\n'] + "shuffle="@ + (if st.shuffle {
        "1"@
    } else {
        "0"@
    }) + seq!['\n'] + "repeat="@ + repeat_name(st.repeat) + seq!['\n'] + "volume="@
        + signed_decimal(st.volume_percent as int) + seq!['\n']
}

/// Writes the session file's text for `st`.
pub fn format_session(st: &SessionState) -> (r: String)
    ensures
        r@ == session_text(*st),
{
    let mut s = String::from_str("playlist=");
    s.append(st.playlist_name.as_str());
    push_char(&mut s, '\n');
    s.append("track=");
    match st.track_index {
        Some(i) => push_decimal(&mut s, i as u64),
        None => {},
    }
    push_char(&mut s, '\n');
    s.append("shuffle=");
    s.append(if st.shuffle { "1" } else { "0" });
    push_char(&mut s, '\n');
    s.append("repeat=");
    s.append(
        match st.repeat {
            RepeatMode::Off => "off",
            RepeatMode::One => "one",
            RepeatMode::All => "all",
        },
    );
    push_char(&mut s, '\n');
    s.append("volume=");
    let v = st.volume_percent;
    if v < 0 {
        push_char(&mut s, '-');
        push_decimal(&mut s, (-(v as i64)) as u64);
    } else {
        push_decimal(&mut s, v as u64);
    }
    push_char(&mut s, '\n');
    proof {
        let t = session_text(*st);
        assert(s@ =~= t);
    }
    s
}

/// Exec state while reading a session file.
struct Reading {
    name: String,
    track: Option<usize>,
    shuffle: bool,
    repeat: RepeatMode,
    volume: i32,
}

impl Reading {
    spec fn fields(&self) -> SessionFields {
        SessionFields {
            name: self.name@,
            track: self.track,
            shuffle: self.shuffle,
            repeat: self.repeat,
            volume: self.volume,
        }
    }

    /// Takes in the line `chars[from..to]`.
    fn apply(&mut self, chars: &Vec<char>, from: usize, to: usize)
        requires
            from <= to <= chars@.len(),
        ensures
            final(self).fields() == apply_line(
                old(self).fields(),
                chars@.subrange(from as int, to as int),
            ),
    {
        let line = string_of_chars(chars, from, to);
        match split_once_char(line.as_str(), '=') {
            None => {},
            Some((k, v)) => {
                let key = trim_str(k);
                let val = trim_str(v);
                if str_eq(key, "playlist") {
                    self.name = to_owned_string(val);
                } else if str_eq(key, "track") {
                    self.track = parse_usize(val);
                } else if str_eq(key, "shuffle") {
                    self.shuffle = str_eq(val, "1");
                } else if str_eq(key, "repeat") {
                    self.repeat = if str_eq(val, "one") || str_eq(val, "1") {
                        RepeatMode::One
                    } else if str_eq(val, "all") || str_eq(val, "2") {
                        RepeatMode::All
                    } else {
                        RepeatMode::Off
                    };
                } else if str_eq(key, "volume") {
                    self.volume = match parse_i32(val) {
                        Some(n) => n,
                        None => 100,
                    };
                }
            },
        }
    }
}

/// Reads a session file's text: `None` when it names no playlist.
pub fn parse_session(text: &str) -> (r: Option<SessionState>)
    ensures
        session_fields(text@).name.len() == 0 ==> r is None,
        session_fields(text@).name.len() > 0 ==> (r matches Some(st) && st.playlist_name@
            == session_fields(text@).name && st.track_index == session_fields(text@).track
            && st.shuffle == session_fields(text@).shuffle && st.repeat == session_fields(
            text@,
        ).repeat && st.volume_percent == session_fields(text@).volume),
{
    let chars = chars_of(text);
    let mut st = Reading {
        name: String::new(),
        track: None,
        shuffle: false,
        repeat: RepeatMode::Off,
        volume: 100,
    };
    let mut start: usize = 0;
    let mut i: usize = 0;
    proof {
        assert(chars@.skip(0) =~= chars@);
        assert(chars@.subrange(0, 0) =~= Seq::<char>::empty());
        assert(st.fields() == initial_fields());
    }
    while i < chars.len()
        invariant
            start <= i <= chars@.len(),
            chars@ == text@,
            fields_from(
                chars@.skip(i as int),
                st.fields(),
                chars@.subrange(start as int, i as int),
            ) == session_fields(text@),
        decreases chars@.len() - i,
    {
        let ghost rest = chars@.skip(i as int);
        let ghost cur = chars@.subrange(start as int, i as int);
        proof {
            assert(rest[0] == chars@[i as int]);
            assert(rest.drop_first() =~= chars@.skip(i + 1));
        }
        if chars[i] == '\n' {
            st.apply(&chars, start, i);
            start = i + 1;
            proof {
                assert(chars@.subrange(i + 1, i + 1) =~= Seq::<char>::empty());
            }
        } else {
            proof {
                assert(chars@.subrange(start as int, i + 1) =~= cur.push(chars@[i as int]));
            }
        }
        i += 1;
    }
    st.apply(&chars, start, i);
    proof {
        assert(chars@.skip(i as int) =~= Seq::<char>::empty());
    }
    if st.name.as_str().unicode_len() == 0 {
        None
    } else {
        Some(
            SessionState {
                playlist_name: st.name,
                track_index: st.track,
                shuffle: st.shuffle,
                repeat: st.repeat,
                volume_percent: st.volume,
            },
        )
    }
}

/// Path of the session file inside the playlist directory, if there is one.
pub fn session_file(playlist_dir: Option<String>) -> (r: Option<String>)
    ensures
        match playlist_dir {
            Some(d) => (r matches Some(p) && p@ == (if d@.len() > 0 && d@.last() == '/' {
                d@
            } else {
                d@.push('/')
            }) + ".session"@),
            None => r is None,
        },
{
    match playlist_dir {
        Some(d) => {
            let mut p = d;
            let n = p.as_str().unicode_len();
            if n == 0 || p.as_str().get_char(n - 1) != '/' {
                push_char(&mut p, '/');
            }
            p.append(".session");
            Some(p)
        },
        None => None,
    }
}

} // verus!
