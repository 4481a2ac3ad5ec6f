//! Key events, as plain values the scene hooks match on. The hosting
//! application decodes the terminal driver's events into this type at the
//! boundary.

use vstd::prelude::*;

verus! {

/// One decoded key press.
#[derive(Clone, Copy, PartialEq, Eq, Structural, Debug)]
pub enum Key {
    Backspace,
    Left,
    Right,
    Up,
    Down,
    Home,
    End,
    PageUp,
    PageDown,
    BackTab,
    Delete,
    Insert,
    /// A function key.
    F(u8),
    /// A printable character.
    Char(char),
    /// A character pressed together with alt.
    Alt(char),
    /// A character pressed together with ctrl.
    Ctrl(char),
    Null,
    Esc,
}

} // verus!
