//! The messages of the actor protocol: commands travelling to the I/O actor,
//! and the one reply it sends back, with their mathematical models.

use vstd::prelude::*;

verus! {

/// A message to the I/O actor. The actor processes messages strictly in
/// arrival order, so everything queued before a `Flush` reaches the terminal
/// driver before the driver flushes.
pub enum Command {
    /// Write this payload to the terminal verbatim, as one unbroken write.
    Write(String),
    /// Flush the terminal's output buffer.
    Flush,
    /// Query the live cursor position and send exactly one `Reply::Position`.
    RequestPos,
    /// Leave the receive loop; nothing after this message is processed.
    Shutdown,
}

/// The model of a `Command`: the same message over mathematical text.
pub enum Msg {
    Write(Seq<char>),
    Flush,
    RequestPos,
    Shutdown,
}

impl Command {
    /// What this message says, independent of its representation.
    pub open spec fn model(self) -> Msg {
        match self {
            Command::Write(payload) => Msg::Write(payload@),
            Command::Flush => Msg::Flush,
            Command::RequestPos => Msg::RequestPos,
            Command::Shutdown => Msg::Shutdown,
        }
    }
}

/// The reply the I/O actor sends for a `RequestPos`: the live cursor
/// position, one-based as the terminal driver reports it.
#[derive(Clone, Copy, PartialEq, Eq, Structural, Debug)]
pub enum Reply {
    Position(u16, u16),
}

} // verus!
