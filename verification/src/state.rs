//! The runtime state shared across the actors: cursor position, running
//! flag, pending scene transition, and the queue of messages on their way to
//! the I/O actor.
//!
//! The queue models the sending half of the command channel: everything a
//! hook writes is appended here, and the hosting application forwards it to
//! the I/O actor in order, so the contracts below pin down exactly which
//! messages leave in which order.

use crate::builder::CommandBuilder;
use crate::message::{Command, Msg};
use crate::Point;
use vstd::prelude::*;

verus! {

/// The global state of the app, guarded by one lock in the hosting
/// application; `S` is the scene type the runtime drives.
pub struct State<S> {
    /// The cursor position, zero-based: the value of the last synchronized
    /// position query, not a live reading (`position` hands it out).
    pub(crate) cursor_position: Point,
    terminal_size: Point,
    running: bool,
    next_scene: Option<S>,
    outbox: Vec<Command>,
}

impl<S> State<S> {
    /// The cross-state invariant: a scene is pending only while the running
    /// flag is down. `running == false` is the only trigger for transition
    /// evaluation, so the slot is `None` in every other state; `change_scene`
    /// stops before it fills the slot, and the runtime empties the slot
    /// before it raises the flag again.
    #[verifier::type_invariant]
    pub(crate) open spec fn transition_inv(self) -> bool {
        self.pending_scene() is Some ==> !self.is_running()
    }

    /// The cursor position, as the contracts see it.
    pub closed spec fn spec_cursor(self) -> Point {
        self.cursor_position
    }

    /// Whether the current scene keeps running; `stop` and `change_scene`
    /// clear it, and the runtime evaluates a transition only when it is
    /// false.
    pub closed spec fn is_running(self) -> bool {
        self.running
    }

    /// The scene that takes over at the next transition, if one was
    /// requested.
    pub closed spec fn pending_scene(self) -> Option<S> {
        self.next_scene
    }

    /// The messages queued for the I/O actor, oldest first.
    pub closed spec fn pending(self) -> Seq<Msg> {
        self.outbox@.map_values(|c: Command| c.model())
    }

    /// The terminal size recorded when the state was created.
    pub closed spec fn spec_size(self) -> Point {
        self.terminal_size
    }

    /// Everything but the message queue is the same in `self` and `other`.
    pub open spec fn same_but_pending(self, other: State<S>) -> bool {
        &&& self.spec_cursor() == other.spec_cursor()
        &&& self.spec_size() == other.spec_size()
        &&& self.is_running() == other.is_running()
        &&& self.pending_scene() == other.pending_scene()
    }

    /// Creates the state with the given cursor position and terminal size,
    /// running, with no pending transition and nothing queued.
    pub fn new(cursor_position: Point, terminal_size: Point) -> (s: State<S>)
        ensures
            s.spec_cursor() == cursor_position,
            s.spec_size() == terminal_size,
            s.is_running(),
            s.pending_scene() is None,
            s.pending() == Seq::<Msg>::empty(),
    {
        let s = State {
            cursor_position,
            terminal_size,
            running: true,
            next_scene: None,
            outbox: Vec::new(),
        };
        proof {
            assert(s.pending() =~= Seq::<Msg>::empty());
        }
        s
    }

    /// Returns a fresh builder that can be used to compose and execute one
    /// batched command.
    pub fn command(&mut self) -> (b: CommandBuilder)
        ensures
            *final(self) == *old(self),
            b.fragments() == Seq::<Seq<char>>::empty(),
    {
        CommandBuilder::empty()
    }

    /// Queues a `Flush` for the I/O actor. Has to be called after executing a
    /// command for the change to become visible; it returns once the message
    /// is queued, not once the terminal has flushed.
    pub fn flush(&mut self)
        ensures
            final(self).same_but_pending(*old(self)),
            final(self).pending() == old(self).pending().push(Msg::Flush),
    {
        self.push_command(Command::Flush);
    }

    /// Stops the current scene: after the running hook returns, the runtime
    /// evaluates a transition, and with no scene pending it shuts down.
    pub fn stop(&mut self)
        ensures
            !final(self).is_running(),
            final(self).spec_cursor() == old(self).spec_cursor(),
            final(self).spec_size() == old(self).spec_size(),
            final(self).pending_scene() == old(self).pending_scene(),
            final(self).pending() == old(self).pending(),
    {
        self.running = false;
    }

    /// Stops the current scene and hands the runtime the scene to start in
    /// its place.
    pub fn change_scene(&mut self, scene: S)
        ensures
            !final(self).is_running(),
            final(self).pending_scene() == Some(scene),
            final(self).spec_cursor() == old(self).spec_cursor(),
            final(self).spec_size() == old(self).spec_size(),
            final(self).pending() == old(self).pending(),
    {
        self.stop();
        self.next_scene = Some(scene);
    }

    /// Returns the lower-right corner point of the terminal, as recorded
    /// when the state was created: a resize during the run is not observed.
    pub fn size(&self) -> (p: Point)
        ensures
            p == self.spec_size(),
    {
        self.terminal_size
    }

    /// Returns the cached cursor position; see `cursor_position`.
    pub fn position(&self) -> (p: Point)
        ensures
            p == self.spec_cursor(),
    {
        self.cursor_position
    }

    /// Queues a position query. The I/O actor answers it with exactly one
    /// `Reply::Position`, which the asker feeds back via
    /// `apply_position_reply`. The hosting application pairs each request it
    /// forwards with one received reply, so whoever drains the queue must
    /// also collect one reply per `RequestPos` drained.
    pub fn request_position(&mut self)
        ensures
            final(self).same_but_pending(*old(self)),
            final(self).pending() == old(self).pending().push(Msg::RequestPos),
    {
        self.push_command(Command::RequestPos);
    }

    /// Records the answer to a position query. The driver reports one-based
    /// coordinates; this is the one place they are shifted to the
    /// zero-based convention.
    pub fn apply_position_reply(&mut self, x: u16, y: u16)
        requires
            1 <= x,
            1 <= y,
        ensures
            final(self).spec_cursor() == (Point { x: (x - 1) as u16, y: (y - 1) as u16 }),
            final(self).spec_size() == old(self).spec_size(),
            final(self).is_running() == old(self).is_running(),
            final(self).pending_scene() == old(self).pending_scene(),
            final(self).pending() == old(self).pending(),
    {
        proof {
            use_type_invariant(&*self);
        }
        self.cursor_position = Point { x: x - 1, y: y - 1 };
    }

    /// Hands out everything queued for the I/O actor, in order, leaving the
    /// queue empty. The hosting application forwards the result to the
    /// channel unchanged.
    pub fn take_outbox(&mut self) -> (v: Vec<Command>)
        ensures
            final(self).same_but_pending(*old(self)),
            final(self).pending() == Seq::<Msg>::empty(),
            v@.map_values(|c: Command| c.model()) == old(self).pending(),
    {
        proof {
            use_type_invariant(&*self);
        }
        let mut v: Vec<Command> = Vec::new();
        core::mem::swap(&mut v, &mut self.outbox);
        proof {
            assert(self.pending() =~= Seq::<Msg>::empty());
        }
        v
    }

    /// Reads the running flag.
    pub(crate) fn running_flag(&self) -> (b: bool)
        ensures
            b == self.is_running(),
    {
        self.running
    }

    /// Appends one message to the queue.
    pub(crate) fn push_command(&mut self, c: Command)
        ensures
            final(self).same_but_pending(*old(self)),
            final(self).pending() == old(self).pending().push(c.model()),
    {
        proof {
            use_type_invariant(&*self);
        }
        let mut outbox: Vec<Command> = Vec::new();
        core::mem::swap(&mut outbox, &mut self.outbox);
        outbox.push(c);
        self.outbox = outbox;
        proof {
            assert(self.pending() =~= old(self).pending().push(c.model()));
        }
    }

    /// Takes the pending scene out, leaving none pending.
    pub(crate) fn take_pending_scene(&mut self) -> (r: Option<S>)
        ensures
            r == old(self).pending_scene(),
            final(self).pending_scene() is None,
            final(self).spec_cursor() == old(self).spec_cursor(),
            final(self).spec_size() == old(self).spec_size(),
            final(self).is_running() == old(self).is_running(),
            final(self).pending() == old(self).pending(),
    {
        let mut taken: Option<S> = None;
        core::mem::swap(&mut taken, &mut self.next_scene);
        taken
    }

    /// Marks the scene running again, as part of a transition; the pending
    /// slot must already be empty.
    pub(crate) fn set_running(&mut self)
        requires
            old(self).pending_scene() is None,
        ensures
            final(self).is_running(),
            final(self).spec_cursor() == old(self).spec_cursor(),
            final(self).spec_size() == old(self).spec_size(),
            final(self).pending_scene() == old(self).pending_scene(),
            final(self).pending() == old(self).pending(),
    {
        self.running = true;
    }
}

} // verus!
