//! Terminal directives the runtime itself issues: cursor motion and a
//! whole-screen clear. Their escape sequences come from the terminal-control
//! crate; the specifications here say exactly which characters that is.

use crate::render::Render;
use crate::text::dec_text;
use crate::Point;
use vstd::prelude::*;

verus! {

/// The escape sequence that moves the cursor to one-based column `x`, row `y`.
pub open spec fn goto_text(x: u16, y: u16) -> Seq<char> {
    seq!['\u{1b}', '['] + dec_text(y as nat) + seq![';'] + dec_text(x as nat) + seq!['H']
}

/// The escape sequence that clears the whole screen.
pub open spec fn clear_all_text() -> Seq<char> {
    seq!['\u{1b}', '[', '2', 'J']
}

/// `v` shifted from the zero-based convention to the terminal's one-based
/// one. The shift happens exactly once, here at the driver boundary; a
/// coordinate already at the largest `u16` stays there instead of overflowing.
pub open spec fn one_based(v: u16) -> u16 {
    if v == 0xffff {
        v
    } else {
        (v + 1) as u16
    }
}

/// Relies on `termion::cursor::Goto`'s `Display` impl: it writes
/// `"\x1B[{y};{x}H"` with both coordinates in decimal (and panics only on
/// `Goto(0, 0)`, which the precondition rules out).
#[verifier::external_body]
fn termion_goto(x: u16, y: u16) -> (s: String)
    requires
        1 <= x,
        1 <= y,
    ensures
        s@ == goto_text(x, y),
{
    termion::cursor::Goto(x, y).to_string()
}

/// Relies on `termion::clear::All`'s `Display` impl: it writes `"\x1B[2J"`.
#[verifier::external_body]
fn termion_clear_all() -> (s: String)
    ensures
        s@ == clear_all_text(),
{
    termion::clear::All.to_string()
}

/// A directive that moves the cursor to a zero-based point.
#[derive(Clone, Copy, PartialEq, Eq, Structural, Debug)]
pub struct Goto(pub Point);

impl Render for Goto {
    open spec fn text(&self) -> Seq<char> {
        goto_text(one_based(self.0.x), one_based(self.0.y))
    }

    fn render(&self) -> (s: String) {
        let x = if self.0.x == 0xffff {
            self.0.x
        } else {
            self.0.x + 1
        };
        let y = if self.0.y == 0xffff {
            self.0.y
        } else {
            self.0.y + 1
        };
        termion_goto(x, y)
    }
}

/// A directive that clears the whole screen.
#[derive(Clone, Copy, PartialEq, Eq, Structural, Debug)]
pub struct ClearAll;

impl Render for ClearAll {
    open spec fn text(&self) -> Seq<char> {
        clear_all_text()
    }

    fn render(&self) -> (s: String) {
        termion_clear_all()
    }
}

} // verus!
