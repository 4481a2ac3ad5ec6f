//! A runtime for full-screen terminal programs organized as replaceable
//! scenes. The runtime decodes key events, drives timer-based updates, and
//! serializes every terminal write through a single I/O actor so that
//! concurrent producers never interleave output.

pub mod builder;
pub mod commands;
pub mod io_actor;
pub mod key;
pub mod message;
pub mod render;
pub mod runtime;
pub mod scene;
pub mod state;
pub mod text;

use crate::render::Render;
use crate::text::{dec_text, u16_dec};
use vstd::prelude::*;
use vstd::string::StringExecFns;

verus! {

/// A point in the terminal. The upper-left cell is `(0, 0)`.
#[derive(Clone, Copy, PartialEq, Eq, Structural, Debug)]
pub struct Point {
    pub x: u16,
    pub y: u16,
}

/// The textual rendering of a point: `"x, y"` with both coordinates in
/// decimal.
pub open spec fn point_text(p: Point) -> Seq<char> {
    dec_text(p.x as nat) + seq![',', ' '] + dec_text(p.y as nat)
}

impl Point {
    /// Creates a new point. The upper-left corner is `(0, 0)` and the
    /// lower-right corner is the terminal size.
    pub fn new(x: u16, y: u16) -> (p: Point)
        ensures
            p.x == x,
            p.y == y,
    {
        Point { x, y }
    }
}

impl Render for Point {
    open spec fn text(&self) -> Seq<char> {
        point_text(*self)
    }

    fn render(&self) -> (s: String) {
        let mut s = u16_dec(self.x);
        s.append(", ");
        let tail = u16_dec(self.y);
        s.append(tail.as_str());
        proof {
            reveal_strlit(", ");
            assert(s@ =~= point_text(*self));
        }
        s
    }
}

} // verus!
