//! What each key of the interactive harness asks for.

use vstd::prelude::*;

verus! {

/// A key press, as far as the harness tells keys apart.
#[derive(Clone, Copy, Debug, PartialEq, Eq)]
pub enum Key {
    Escape,
    Char(char),
    Other,
}

/// An axis of the space in which the sound source moves.
#[derive(Clone, Copy, Debug, PartialEq, Eq)]
pub enum Axis {
    X,
    Y,
    Z,
}

/// How far one key press moves the sound source.
#[derive(Clone, Copy, Debug, PartialEq, Eq)]
pub enum Step {
    /// One unit.
    Coarse,
    /// A tenth of a unit.
    Fine,
}

/// What a key press asks the harness to do.
#[derive(Clone, Copy, Debug, PartialEq, Eq)]
pub enum Command {
    /// Leave the harness.
    Quit,
    /// Show the full list of controls, or hide it again.
    ToggleHelp,
    /// Start the event in `slot` if it is silent, stop it if it plays.
    ToggleEvent { slot: usize },
    /// Stop every event that plays.
    StopAll,
    /// Move the sound source by one step along `axis`.
    MoveSource { axis: Axis, negative: bool, step: Step },
    /// Put the sound source back where it started.
    ResetSource,
    /// Raise or lower the parameters of the events that play.
    NudgeParameter { up: bool },
    /// Nothing.
    Ignore,
}

/// The slot that a digit key stands for: `1` to `6` are the slots 0 to 5.
pub open spec fn slot_of(c: char) -> Option<usize> {
    if c == '1' {
        Some(0usize)
    } else if c == '2' {
        Some(1usize)
    } else if c == '3' {
        Some(2usize)
    } else if c == '4' {
        Some(3usize)
    } else if c == '5' {
        Some(4usize)
    } else if c == '6' {
        Some(5usize)
    } else {
        None
    }
}

/// The axis along which a movement key moves the source, and whether it
/// moves towards smaller coordinates: `W`/`S` along Z, `A`/`D` along X,
/// `E`/`Q` along Y, the first of each pair towards smaller coordinates.
pub open spec fn heading_of(c: char) -> Option<(Axis, bool)> {
    if c == 'w' || c == 'W' {
        Some((Axis::Z, true))
    } else if c == 's' || c == 'S' {
        Some((Axis::Z, false))
    } else if c == 'a' || c == 'A' {
        Some((Axis::X, true))
    } else if c == 'd' || c == 'D' {
        Some((Axis::X, false))
    } else if c == 'e' || c == 'E' {
        Some((Axis::Y, true))
    } else if c == 'q' || c == 'Q' {
        Some((Axis::Y, false))
    } else {
        None
    }
}

/// The step of a movement: fine while shift is held.
pub open spec fn step_of(shift: bool) -> Step {
    if shift {
        Step::Fine
    } else {
        Step::Coarse
    }
}

/// What the character key `c` asks for when `event_count` events are loaded.
pub open spec fn command_of_char(c: char, shift: bool, event_count: int) -> Command {
    if let Some(slot) = slot_of(c) {
        if slot < event_count {
            Command::ToggleEvent { slot }
        } else {
            Command::Ignore
        }
    } else if let Some((axis, negative)) = heading_of(c) {
        Command::MoveSource { axis, negative, step: step_of(shift) }
    } else if c == 'h' || c == 'H' {
        Command::ToggleHelp
    } else if c == ' ' {
        Command::StopAll
    } else if c == 'r' || c == 'R' {
        Command::ResetSource
    } else if c == '+' || c == '=' {
        Command::NudgeParameter { up: true }
    } else if c == '-' || c == '_' {
        Command::NudgeParameter { up: false }
    } else {
        Command::Ignore
    }
}

/// What a key press asks for when `event_count` events are loaded.
pub open spec fn command_of(key: Key, shift: bool, event_count: int) -> Command {
    match key {
        Key::Escape => Command::Quit,
        Key::Char(c) => command_of_char(c, shift, event_count),
        Key::Other => Command::Ignore,
    }
}

/// The slot that a digit key stands for.
pub fn slot_for_digit(c: char) -> (slot: Option<usize>)
    ensures
        slot == slot_of(c),
{
    match c {
        '1' => Some(0),
        '2' => Some(1),
        '3' => Some(2),
        '4' => Some(3),
        '5' => Some(4),
        '6' => Some(5),
        _ => None,
    }
}

/// The axis and sense of a movement key.
pub fn heading_for_key(c: char) -> (heading: Option<(Axis, bool)>)
    ensures
        heading == heading_of(c),
{
    match c {
        'w' | 'W' => Some((Axis::Z, true)),
        's' | 'S' => Some((Axis::Z, false)),
        'a' | 'A' => Some((Axis::X, true)),
        'd' | 'D' => Some((Axis::X, false)),
        'e' | 'E' => Some((Axis::Y, true)),
        'q' | 'Q' => Some((Axis::Y, false)),
        _ => None,
    }
}

/// Maps one key press to the command it stands for. Unknown keys, and digits
/// beyond the loaded events, are ignored.
pub fn command_for_key(key: Key, shift: bool, event_count: usize) -> (command: Command)
    ensures
        command == command_of(key, shift, event_count as int),
{
    match key {
        Key::Escape => Command::Quit,
        Key::Other => Command::Ignore,
        Key::Char(c) => {
            if let Some(slot) = slot_for_digit(c) {
                if slot < event_count {
                    Command::ToggleEvent { slot }
                } else {
                    Command::Ignore
                }
            } else if let Some((axis, negative)) = heading_for_key(c) {
                let step = if shift {
                    Step::Fine
                } else {
                    Step::Coarse
                };
                Command::MoveSource { axis, negative, step }
            } else {
                match c {
                    'h' | 'H' => Command::ToggleHelp,
                    ' ' => Command::StopAll,
                    'r' | 'R' => Command::ResetSource,
                    '+' | '=' => Command::NudgeParameter { up: true },
                    '-' | '_' => Command::NudgeParameter { up: false },
                    _ => Command::Ignore,
                }
            }
        },
    }
}

} // verus!
