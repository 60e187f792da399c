//! Device-independent input: decoded keys and events on one side, the
//! editor's `Action` vocabulary on the other.
//!
//! The input layer outside this crate decodes raw terminal events into
//! `InputEvent` values; the functions here turn them into actions under the
//! current mode.  No assumption is made about the physical device.

use crate::editor::Mode;
use vstd::prelude::*;

verus! {

/// The part of a terminal key event the editor reads.
#[derive(Debug, Clone, Copy, PartialEq, Eq, Structural)]
pub enum Key {
    Backspace,
    Enter,
    Left,
    Right,
    Up,
    Down,
    Char(char),
    Tab,
    Esc,
    /// Any other key; the editor ignores it.
    Other,
}

/// A decoded terminal event, as the input layer hands it over.
#[derive(Debug, Clone, Copy, PartialEq, Eq, Structural)]
pub enum InputEvent {
    /// A key was pressed.
    KeyPress(Key),
    /// The terminal was resized.
    Resize,
    /// Any other event, including key releases.
    Other,
}

/// A cursor-movement direction.
#[derive(Debug, Clone, Copy, PartialEq, Eq, Structural)]
pub enum Direction {
    Up,
    Down,
    Left,
    Right,
}

/// A user intent, independent of the input device.
#[derive(Debug, Clone, Copy, PartialEq, Eq, Structural)]
pub enum Action {
    /// An input that means nothing here; dispatch drops it.
    Ignore,
    Exit,
    Move(Direction),
    ChangeMode(Mode),
    AddChar(char),
    RemoveChar,
    AddLine,
    Save,
}

/// The action an arrow key means.
pub open spec fn arrow_action(key: Key) -> Action {
    match key {
        Key::Up => Action::Move(Direction::Up),
        Key::Down => Action::Move(Direction::Down),
        Key::Left => Action::Move(Direction::Left),
        Key::Right => Action::Move(Direction::Right),
        _ => Action::Ignore,
    }
}

/// The mode the mode-toggle key switches to.
pub open spec fn toggled_mode(mode: Mode) -> Mode {
    match mode {
        Mode::Reading => Mode::Editing,
        Mode::Editing => Mode::Reading,
        Mode::Exiting => Mode::Exiting,
    }
}

/// The action a key press means while reading or editing.
pub open spec fn key_action(key: Key, mode: Mode) -> Action {
    match key {
        Key::Backspace => Action::RemoveChar,
        Key::Enter => Action::AddLine,
        Key::Up => Action::Move(Direction::Up),
        Key::Down => Action::Move(Direction::Down),
        Key::Left => Action::Move(Direction::Left),
        Key::Right => Action::Move(Direction::Right),
        Key::Char(ch) => Action::AddChar(ch),
        Key::Tab => Action::ChangeMode(toggled_mode(mode)),
        Key::Esc => Action::ChangeMode(Mode::Exiting),
        Key::Other => Action::Ignore,
    }
}

/// The action a key press means while the exit confirmation is pending:
/// only a yes or no answer (in either case) counts.
pub open spec fn exiting_action(key: Key) -> Action {
    match key {
        Key::Char(ch) => if ch == 'Y' || ch == 'y' {
            Action::Save
        } else if ch == 'N' || ch == 'n' {
            Action::Exit
        } else {
            Action::Ignore
        },
        _ => Action::Ignore,
    }
}

/// The action a decoded event means under the given mode.
pub open spec fn keyboard_action(event: InputEvent, mode: Mode) -> Action {
    match event {
        InputEvent::KeyPress(key) => match mode {
            Mode::Reading => key_action(key, mode),
            Mode::Editing => key_action(key, mode),
            Mode::Exiting => exiting_action(key),
        },
        InputEvent::Resize => Action::Ignore,
        InputEvent::Other => Action::Exit,
    }
}

/// Maps a key press while reading or editing to its action: backspace
/// deletes, enter opens a line, arrows move, a character is inserted, tab
/// toggles the mode, and escape asks to exit.
pub fn handle_key(key: Key, mode: &Mode) -> (r: Action)
    requires
        !(*mode is Exiting),
    ensures
        r == key_action(key, *mode),
{
    match key {
        Key::Backspace => Action::RemoveChar,
        Key::Enter => Action::AddLine,
        Key::Left | Key::Right | Key::Up | Key::Down => handle_arrow_key(key),
        Key::Char(ch) => Action::AddChar(ch),
        Key::Tab => Action::ChangeMode(
            match mode {
                Mode::Reading => Mode::Editing,
                Mode::Editing => Mode::Reading,
                Mode::Exiting => {
                    proof {
                        assert(false);
                    }
                    Mode::Reading
                },
            },
        ),
        Key::Esc => Action::ChangeMode(Mode::Exiting),
        Key::Other => Action::Ignore,
    }
}

/// Maps an arrow key to its movement action.
pub fn handle_arrow_key(key: Key) -> (r: Action)
    requires
        key is Up || key is Down || key is Left || key is Right,
    ensures
        r == arrow_action(key),
{
    match key {
        Key::Up => Action::Move(Direction::Up),
        Key::Down => Action::Move(Direction::Down),
        Key::Left => Action::Move(Direction::Left),
        Key::Right => Action::Move(Direction::Right),
        _ => {
            proof {
                assert(false);
            }
            Action::Ignore
        },
    }
}

/// Maps a key press under the exit confirmation: `Y`/`y` saves and leaves,
/// `N`/`n` leaves without saving, anything else is ignored.
pub fn handle_exiting_key(key: Key) -> (r: Action)
    ensures
        r == exiting_action(key),
{
    if let Key::Char(ch) = key {
        if ch == 'Y' || ch == 'y' {
            return Action::Save;
        } else if ch == 'N' || ch == 'n' {
            return Action::Exit;
        }
    }
    Action::Ignore
}

/// Maps one decoded terminal event to an action under the current mode: key
/// presses go through the mode's key map, a resize is ignored, and any other
/// event ends the session.
pub fn handle_keyboard(event: InputEvent, mode: &Mode) -> (r: Action)
    ensures
        r == keyboard_action(event, *mode),
{
    match event {
        InputEvent::KeyPress(key) => match mode {
            Mode::Reading | Mode::Editing => handle_key(key, mode),
            Mode::Exiting => handle_exiting_key(key),
        },
        InputEvent::Resize => Action::Ignore,
        InputEvent::Other => Action::Exit,
    }
}

} // verus!
