//! The normalized input model and the command dispatcher: a pure mapping
//! from a key event to exactly one application command, or to no command
//! when the key is unmapped.

use vstd::prelude::*;

verus! {

/// The key codes the dispatcher distinguishes. Every other key the input
/// source can report is normalized to `Other`.
#[derive(Clone, Copy, Debug, PartialEq, Eq, Structural)]
pub enum KeyCode {
    Escape,
    Left,
    Right,
    Up,
    Down,
    Char(char),
    Other,
}

/// Whether a key was pressed, released, or is an auto-repeat.
#[derive(Clone, Copy, Debug, PartialEq, Eq, Structural)]
pub enum KeyEventKind {
    Press,
    Release,
    Repeat,
}

/// A normalized key event: the code, whether the Control modifier was held,
/// and the press/release/repeat kind.
#[derive(Clone, Copy, Debug, PartialEq, Eq, Structural)]
pub struct KeyEvent {
    pub code: KeyCode,
    pub control: bool,
    pub kind: KeyEventKind,
}

/// An event yielded by the input source.
#[derive(Clone, Copy, Debug, PartialEq, Eq, Structural)]
pub enum InputEvent {
    Key(KeyEvent),
    Mouse,
    Resize(u16, u16),
    Other,
}

/// The operation a key event maps to.
#[derive(Clone, Copy, Debug, PartialEq, Eq, Structural)]
pub enum Command {
    Quit,
    NextTab,
    PreviousTab,
    NextOutput,
    PreviousOutput,
    VolumeUp,
    VolumeDown,
    Noop,
}

/// The command a key event maps to, first match wins: Escape, `q`/`Q` or
/// Control+`c`/`C` quit; `l`/`h` step the tab; `j`/Up and `k`/Down step the
/// output; Right/Left step the volume; anything else is a no-op.
pub open spec fn spec_command_for(key: KeyEvent) -> Command {
    if key.code == KeyCode::Escape || key.code == KeyCode::Char('q') || key.code == KeyCode::Char(
        'Q',
    ) || (key.control && (key.code == KeyCode::Char('c') || key.code == KeyCode::Char('C'))) {
        Command::Quit
    } else if key.code == KeyCode::Char('l') {
        Command::NextTab
    } else if key.code == KeyCode::Char('h') {
        Command::PreviousTab
    } else if key.code == KeyCode::Char('j') || key.code == KeyCode::Up {
        Command::PreviousOutput
    } else if key.code == KeyCode::Char('k') || key.code == KeyCode::Down {
        Command::NextOutput
    } else if key.code == KeyCode::Right {
        Command::VolumeUp
    } else if key.code == KeyCode::Left {
        Command::VolumeDown
    } else {
        Command::Noop
    }
}

/// Maps a key event to the command it triggers.
pub fn command_for(key: KeyEvent) -> (c: Command)
    ensures
        c == spec_command_for(key),
{
    match key.code {
        KeyCode::Escape => Command::Quit,
        KeyCode::Char('q') => Command::Quit,
        KeyCode::Char('Q') => Command::Quit,
        KeyCode::Char('c') => if key.control {
            Command::Quit
        } else {
            Command::Noop
        },
        KeyCode::Char('C') => if key.control {
            Command::Quit
        } else {
            Command::Noop
        },
        KeyCode::Char('l') => Command::NextTab,
        KeyCode::Char('h') => Command::PreviousTab,
        KeyCode::Char('j') => Command::PreviousOutput,
        KeyCode::Up => Command::PreviousOutput,
        KeyCode::Char('k') => Command::NextOutput,
        KeyCode::Down => Command::NextOutput,
        KeyCode::Right => Command::VolumeUp,
        KeyCode::Left => Command::VolumeDown,
        _ => Command::Noop,
    }
}

} // verus!
