use vstd::prelude::*;
use crate::direction::Direction;

verus! {

/// What the player asked for.
#[derive(Debug, Clone, Copy, PartialEq, Eq, Structural)]
pub enum Command {
    Quit,
    Move(Direction),
    Shoot,
}

/// The key of a key press, as far as the controls tell keys apart.
#[derive(Debug, Clone, Copy, PartialEq, Eq, Structural)]
pub enum Key {
    Char(char),
    Esc,
    Left,
    Right,
    /// Any other key.
    Other,
}

/// Bit of the modifier set that stands for Shift.
pub const MODIFIER_SHIFT: u8 = 0b0000_0001;

/// Bit of the modifier set that stands for Control.
pub const MODIFIER_CONTROL: u8 = 0b0000_0010;

/// Bit of the modifier set that stands for Alt.
pub const MODIFIER_ALT: u8 = 0b0000_0100;

/// The command that a key press stands for, if any: `q`, `Q` and Escape quit,
/// `c` or `C` with Control alone held quits, the arrows move, `f` shoots.
pub open spec fn command_of(key: Key, modifiers: u8) -> Option<Command> {
    match key {
        Key::Char(c) => {
            if c == 'q' || c == 'Q' {
                Some(Command::Quit)
            } else if c == 'c' || c == 'C' {
                if modifiers == MODIFIER_CONTROL {
                    Some(Command::Quit)
                } else {
                    None
                }
            } else if c == 'f' {
                Some(Command::Shoot)
            } else {
                None
            }
        },
        Key::Esc => Some(Command::Quit),
        Key::Right => Some(Command::Move(Direction::Right)),
        Key::Left => Some(Command::Move(Direction::Left)),
        Key::Other => None,
    }
}

/// The controls, key by key: the keys that quit, move and shoot are exactly
/// these, and every other key press gives no command.
pub proof fn lemma_decoding_table(key: Key, modifiers: u8)
    ensures
        command_of(key, modifiers) == Some(Command::Quit) <==> {
            ||| key == Key::Esc
            ||| key == Key::Char('q')
            ||| key == Key::Char('Q')
            ||| (key == Key::Char('c') || key == Key::Char('C')) && modifiers == MODIFIER_CONTROL
        },
        command_of(key, modifiers) == Some(Command::Move(Direction::Right)) <==> key == Key::Right,
        command_of(key, modifiers) == Some(Command::Move(Direction::Left)) <==> key == Key::Left,
        command_of(key, modifiers) == Some(Command::Shoot) <==> key == Key::Char('f'),
        command_of(key, modifiers) is None <==> !{
            ||| key == Key::Esc
            ||| key == Key::Char('q')
            ||| key == Key::Char('Q')
            ||| (key == Key::Char('c') || key == Key::Char('C')) && modifiers == MODIFIER_CONTROL
            ||| key == Key::Right
            ||| key == Key::Left
            ||| key == Key::Char('f')
        },
{
}

/// Decodes a key press with the set of modifiers held (a bit set of
/// `MODIFIER_SHIFT`, `MODIFIER_CONTROL` and `MODIFIER_ALT`).
pub fn decode_key(key: Key, modifiers: u8) -> (r: Option<Command>)
    ensures
        r == command_of(key, modifiers),
        r matches Some(Command::Move(d)) ==> d.is_horizontal(),
{
    match key {
        Key::Char(c) => {
            if c == 'q' || c == 'Q' {
                Some(Command::Quit)
            } else if c == 'c' || c == 'C' {
                if modifiers == MODIFIER_CONTROL {
                    Some(Command::Quit)
                } else {
                    None
                }
            } else if c == 'f' {
                Some(Command::Shoot)
            } else {
                None
            }
        },
        Key::Esc => Some(Command::Quit),
        Key::Right => Some(Command::Move(Direction::Right)),
        Key::Left => Some(Command::Move(Direction::Left)),
        Key::Other => None,
    }
}

} // verus!
