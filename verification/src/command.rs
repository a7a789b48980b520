//! Decoded player commands, and the mapping from per-frame input states to
//! commands.

use vstd::prelude::*;

use crate::coord::{AsDirection, Direction};
use crate::input::{Input, InputState, Key};

verus! {

/// A decoded player command for one frame.
#[derive(Clone, Copy, PartialEq, Eq, Structural, Debug)]
pub enum Command {
    Move(Direction),
    Evoke(Direction),
    EvokeMouse,
    CycleSpell(bool),
    SelectSpell(usize),
}

/// Conversion into a command, for input-state types.
pub trait AsCommand {
    /// The command this value decodes to, if any.
    spec fn command_spec(&self) -> Option<Command>;

    fn as_command(&self) -> (c: Option<Command>)
        ensures
            c == self.command_spec(),
    ;
}

/// The movement direction a key stands for.
pub open spec fn spec_key_direction(k: Key) -> Option<Direction> {
    match k {
        Key::Up | Key::Char('w') => Some(Direction::Up),
        Key::Left | Key::Char('a') => Some(Direction::Left),
        Key::Down | Key::Char('s') => Some(Direction::Down),
        Key::Right | Key::Char('d') => Some(Direction::Right),
        _ => None,
    }
}

impl AsDirection for Key {
    open spec fn direction_spec(&self) -> Option<Direction> {
        spec_key_direction(*self)
    }

    fn as_direction(&self) -> (d: Option<Direction>) {
        match self {
            Key::Up | Key::Char('w') => Some(Direction::Up),
            Key::Left | Key::Char('a') => Some(Direction::Left),
            Key::Down | Key::Char('s') => Some(Direction::Down),
            Key::Right | Key::Char('d') => Some(Direction::Right),
            _ => None,
        }
    }
}

/// The command a freshly pressed key triggers: casting, spell cycling and
/// selection fire once per press, so holding the key does not repeat them
/// every frame.
pub open spec fn spec_press_command(k: Key) -> Option<Command> {
    match k {
        Key::Char('i') => Some(Command::Evoke(Direction::Up)),
        Key::Char('j') => Some(Command::Evoke(Direction::Left)),
        Key::Char('k') => Some(Command::Evoke(Direction::Down)),
        Key::Char('l') => Some(Command::Evoke(Direction::Right)),
        Key::Char('u') | Key::Char('q') => Some(Command::CycleSpell(false)),
        Key::Char('o') | Key::Char('e') => Some(Command::CycleSpell(true)),
        Key::Char('1') => Some(Command::SelectSpell(0)),
        Key::Char('2') => Some(Command::SelectSpell(1)),
        Key::Char('3') => Some(Command::SelectSpell(2)),
        Key::Char('4') => Some(Command::SelectSpell(3)),
        Key::Char('5') => Some(Command::SelectSpell(4)),
        Key::Char('6') => Some(Command::SelectSpell(5)),
        Key::Char('7') => Some(Command::SelectSpell(6)),
        Key::Char('8') => Some(Command::SelectSpell(7)),
        Key::Char('9') => Some(Command::SelectSpell(8)),
        _ => None,
    }
}

/// The command a held key keeps issuing: movement follows the key for as
/// long as it stays active, so two held direction keys sum to a diagonal.
pub open spec fn spec_active_command(k: Key) -> Option<Command> {
    match spec_key_direction(k) {
        Some(d) => Some(Command::Move(d)),
        None => None,
    }
}

/// The command an input state decodes to.
pub open spec fn spec_state_command(s: InputState) -> Option<Command> {
    match s {
        InputState::Press(Input::Key(k)) => spec_press_command(k),
        InputState::Press(Input::MouseLeft) => Some(Command::EvokeMouse),
        InputState::Active(Input::Key(k)) => spec_active_command(k),
        _ => None,
    }
}

impl AsCommand for InputState {
    open spec fn command_spec(&self) -> Option<Command> {
        spec_state_command(*self)
    }

    fn as_command(&self) -> (c: Option<Command>) {
        match self {
            InputState::Press(Input::Key(k)) => match k {
                Key::Char('i') => Some(Command::Evoke(Direction::Up)),
                Key::Char('j') => Some(Command::Evoke(Direction::Left)),
                Key::Char('k') => Some(Command::Evoke(Direction::Down)),
                Key::Char('l') => Some(Command::Evoke(Direction::Right)),
                Key::Char('u') | Key::Char('q') => Some(Command::CycleSpell(false)),
                Key::Char('o') | Key::Char('e') => Some(Command::CycleSpell(true)),
                Key::Char('1') => Some(Command::SelectSpell(0)),
                Key::Char('2') => Some(Command::SelectSpell(1)),
                Key::Char('3') => Some(Command::SelectSpell(2)),
                Key::Char('4') => Some(Command::SelectSpell(3)),
                Key::Char('5') => Some(Command::SelectSpell(4)),
                Key::Char('6') => Some(Command::SelectSpell(5)),
                Key::Char('7') => Some(Command::SelectSpell(6)),
                Key::Char('8') => Some(Command::SelectSpell(7)),
                Key::Char('9') => Some(Command::SelectSpell(8)),
                _ => None,
            },
            InputState::Press(Input::MouseLeft) => Some(Command::EvokeMouse),
            InputState::Active(Input::Key(k)) => match k.as_direction() {
                Some(d) => Some(Command::Move(d)),
                None => None,
            },
            _ => None,
        }
    }
}

} // verus!
