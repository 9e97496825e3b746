//! Keyboard input, as the game rules see it.

use vstd::prelude::*;

verus! {

/// A key of the keyboard. The four movement keys and the key that toggles
/// the debug overlay are told apart; every other key is `Other`.
#[derive(Clone, Copy, Debug, PartialEq, Eq, Hash, Structural)]
pub enum Key {
    W,
    A,
    S,
    D,
    Return,
    Other,
}

/// An input event. Whatever is neither a key press nor a key release is
/// `Other`.
#[derive(Clone, Copy, Debug, PartialEq, Eq, Hash, Structural)]
pub enum InputEvent {
    Press(Key),
    Release(Key),
    Other,
}

} // verus!
