//! Application settings and command-line arguments, as plain values.

use vstd::prelude::*;

verus! {

/// Application settings.
#[derive(Debug, Clone, Copy, PartialEq, Eq, Structural)]
pub struct Settings {
    /// Show the current track in Discord's Rich Presence.
    pub discord_enabled: bool,
    /// Use the system media transport controls.
    pub smtc_enabled: bool,
}

impl Default for Settings {
    /// Both integrations are on by default.
    fn default() -> (r: Self)
        ensures
            r.discord_enabled && r.smtc_enabled,
    {
        Settings { discord_enabled: true, smtc_enabled: true }
    }
}

/// Command-line arguments of the player.
#[derive(Debug, Clone, PartialEq, Eq)]
pub struct Args {
    /// Directory or file to open on startup.
    pub path: Option<String>,
    /// Start in file browser mode.
    pub browse: bool,
    /// Files or directories to add to the playlist and start playing.
    pub files: Vec<String>,
}

} // verus!
