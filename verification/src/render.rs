//! The capability a value needs before a command buffer can carry it: a
//! textual rendering with an exact specification.

use vstd::prelude::*;

verus! {

/// A value with a textual rendering. Anything appended to a command buffer
/// implements this; the buffer's contract speaks of `text()`.
pub trait Render {
    /// The characters this value renders to.
    spec fn text(&self) -> Seq<char>;

    /// Renders this value.
    fn render(&self) -> (s: String)
        ensures
            s@ == self.text(),
    ;
}

impl Render for String {
    open spec fn text(&self) -> Seq<char> {
        self@
    }

    fn render(&self) -> (s: String) {
        self.clone()
    }
}

} // verus!
