//! What reaches the dispatcher: key presses and clock ticks.

use vstd::prelude::*;

verus! {

/// A key press, reduced to what the timer tells apart.
#[derive(Clone, Copy, Debug, PartialEq, Eq, Structural)]
pub enum Key {
    /// A printable character.
    Char(char),
    Up,
    Down,
    Enter,
    Esc,
    /// Any key the timer has no use for.
    Other,
}

/// One entry of the event stream.
#[derive(Clone, Copy, Debug, PartialEq, Eq, Structural)]
pub enum Event {
    /// The user pressed a key.
    Key(Key),
    /// A tick period has passed.
    Tick,
}

} // verus!
