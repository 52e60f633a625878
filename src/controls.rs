//! What the front end's commands decide about the queue and the volume.

use vstd::prelude::*;
use crate::command::RepeatModeArg;
use crate::playlist::RepeatMode;

verus! {

/// The repeat mode after a repeat command: the named mode, or without one the next in the
/// cycle Off, One, All.
pub open spec fn spec_repeat_after(mode: Option<RepeatModeArg>, current: RepeatMode) -> RepeatMode {
    match mode {
        Some(RepeatModeArg::Off) => RepeatMode::Off,
        Some(RepeatModeArg::One) => RepeatMode::One,
        Some(RepeatModeArg::All) => RepeatMode::All,
        None => match current {
            RepeatMode::Off => RepeatMode::One,
            RepeatMode::One => RepeatMode::All,
            RepeatMode::All => RepeatMode::Off,
        },
    }
}

/// Repeat mode after a repeat command.
pub fn repeat_after(mode: Option<RepeatModeArg>, current: RepeatMode) -> (r: RepeatMode)
    ensures
        r == spec_repeat_after(mode, current),
{
    match mode {
        Some(RepeatModeArg::Off) => RepeatMode::Off,
        Some(RepeatModeArg::One) => RepeatMode::One,
        Some(RepeatModeArg::All) => RepeatMode::All,
        None => match current {
            RepeatMode::Off => RepeatMode::One,
            RepeatMode::One => RepeatMode::All,
            RepeatMode::All => RepeatMode::Off,
        },
    }
}

/// Volume percent that a volume command sets: the level, at most 100.
pub fn volume_level(level: u32) -> (r: u32)
    ensures
        r == if level <= 100 {
            level
        } else {
            100
        },
{
    if level <= 100 {
        level
    } else {
        100
    }
}

/// The row selected after moving down in a list of `len` rows, wrapping to the top.
pub fn select_next_row(selected: Option<usize>, len: usize) -> (r: Option<usize>)
    ensures
        len == 0 ==> r == selected,
        len > 0 ==> r == Some(
            match selected {
                Some(i) => if i + 1 >= len {
                    0usize
                } else {
                    (i + 1) as usize
                },
                None => 0usize,
            },
        ),
{
    if len == 0 {
        return selected;
    }
    match selected {
        Some(i) => if i >= len - 1 {
            Some(0)
        } else {
            Some(i + 1)
        },
        None => Some(0),
    }
}

/// The row selected after moving up in a list of `len` rows, wrapping to the bottom.
pub fn select_previous_row(selected: Option<usize>, len: usize) -> (r: Option<usize>)
    ensures
        len == 0 ==> r == selected,
        len > 0 ==> r == Some(
            match selected {
                Some(i) => if i == 0 {
                    (len - 1) as usize
                } else {
                    (i - 1) as usize
                },
                None => 0usize,
            },
        ),
{
    if len == 0 {
        return selected;
    }
    match selected {
        Some(i) => if i == 0 {
            Some(len - 1)
        } else {
            Some(i - 1)
        },
        None => Some(0),
    }
}

/// The row selected after removing the selected row `idx`, `len` rows remaining: none when
/// the list is empty, else the same position, or the last row when it fell off the end.
pub fn selection_after_remove(idx: usize, len: usize) -> (r: Option<usize>)
    ensures
        len == 0 ==> r is None,
        len > 0 ==> r == Some(if idx < len {
            idx
        } else {
            (len - 1) as usize
        }),
{
    if len == 0 {
        None
    } else if idx >= len {
        Some(len - 1)
    } else {
        Some(idx)
    }
}

} // verus!
