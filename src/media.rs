//! Commands that the operating system's media controls send to the player.

use vstd::prelude::*;

verus! {

/// Commands from the operating system's media controls.
#[derive(Debug, Clone, Copy, PartialEq, Eq, Structural)]
pub enum MediaControlCommand {
    Play,
    Pause,
    Toggle,
    Stop,
    Next,
    Previous,
}

} // verus!
