use vstd::prelude::*;
use crate::ticker::FULL;

verus! {

/// Which key an input event is about: a character key, or any other key.
#[derive(Clone, Copy, Debug, PartialEq, Eq, Structural)]
pub enum Key {
    Char(char),
    Other,
}

/// Whether a key went down, is held and repeating, or went up.
#[derive(Clone, Copy, Debug, PartialEq, Eq, Structural)]
pub enum KeyKind {
    Press,
    Repeat,
    Release,
}

/// One keyboard event as the input producer reads it.
#[derive(Clone, Copy, Debug, PartialEq, Eq, Structural)]
pub struct KeyEvent {
    pub code: Key,
    pub kind: KeyKind,
}

/// What the producers send to the state machine: a key event, or a new progress
/// value in percent.
#[derive(Clone, Copy, Debug, PartialEq, Eq, Structural)]
pub enum Event {
    Input(KeyEvent),
    Progress(u32),
}

/// The key that quits.
pub const QUIT_KEY: char = 'q';

/// The key that toggles the gauge's colour.
pub const TOGGLE_KEY: char = 'c';

impl KeyEvent {
    /// A press of the character key `c`.
    pub fn press(c: char) -> (r: KeyEvent)
        ensures
            r == (KeyEvent { code: Key::Char(c), kind: KeyKind::Press }),
    {
        KeyEvent { code: Key::Char(c), kind: KeyKind::Press }
    }
}

impl Event {
    /// A progress value lies between an empty and a full gauge.
    pub open spec fn valid(self) -> bool {
        match self {
            Event::Progress(p) => p <= FULL,
            Event::Input(_) => true,
        }
    }
}

} // verus!
