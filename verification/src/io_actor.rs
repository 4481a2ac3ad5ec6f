//! The I/O actor: the sole owner of the terminal. It runs a blocking receive
//! loop; this module is the loop body's decision, the model of what a batch
//! of messages does to the terminal, and the laws that writes are never
//! interleaved and that every position query gets exactly one reply.

use crate::message::{Command, Msg};
use vstd::prelude::*;
use vstd::seq_lib::lemma_flatten_concat;

verus! {

/// What the I/O actor does with one received message.
pub enum IoAction {
    /// Write this text's bytes to the terminal, as one unbroken write.
    PutText(String),
    /// Flush the terminal's output buffer.
    FlushOutput,
    /// Query the driver for the live cursor position and send exactly one
    /// `Reply::Position` back to the asker.
    ReplyPosition,
    /// Leave the receive loop.
    Exit,
}

/// The model of an `IoAction`.
pub enum Act {
    PutText(Seq<char>),
    FlushOutput,
    ReplyPosition,
    Exit,
}

impl IoAction {
    /// What this action does, independent of its representation.
    pub open spec fn model(self) -> Act {
        match self {
            IoAction::PutText(payload) => Act::PutText(payload@),
            IoAction::FlushOutput => Act::FlushOutput,
            IoAction::ReplyPosition => Act::ReplyPosition,
            IoAction::Exit => Act::Exit,
        }
    }
}

/// The action the I/O actor takes for one message: a function of the message
/// alone.
pub open spec fn action_for(m: Msg) -> Act {
    match m {
        Msg::Write(payload) => Act::PutText(payload),
        Msg::Flush => Act::FlushOutput,
        Msg::RequestPos => Act::ReplyPosition,
        Msg::Shutdown => Act::Exit,
    }
}

/// The actions for a batch of messages, in arrival order.
pub open spec fn actions_for(msgs: Seq<Msg>) -> Seq<Act> {
    msgs.map_values(|m: Msg| action_for(m))
}

/// Decides what to do with one received message. The hosting application's
/// receive loop performs exactly the returned action, then receives again
/// (or exits on `Exit`), so the actor handles messages strictly one at a
/// time, in arrival order.
pub fn io_step(cmd: Command) -> (a: IoAction)
    ensures
        a.model() == action_for(cmd.model()),
{
    match cmd {
        Command::Write(payload) => IoAction::PutText(payload),
        Command::Flush => IoAction::FlushOutput,
        Command::RequestPos => IoAction::ReplyPosition,
        Command::Shutdown => IoAction::Exit,
    }
}

/// The messages the actor processes out of `msgs`: everything before the
/// first `Shutdown`, in order.
pub open spec fn processed(msgs: Seq<Msg>) -> Seq<Msg>
    decreases msgs.len(),
{
    if msgs.len() == 0 {
        msgs
    } else if msgs.first() is Shutdown {
        Seq::empty()
    } else {
        seq![msgs.first()] + processed(msgs.drop_first())
    }
}

/// The payloads of the writes among `msgs`, in order.
pub open spec fn write_payloads(msgs: Seq<Msg>) -> Seq<Seq<char>>
    decreases msgs.len(),
{
    if msgs.len() == 0 {
        Seq::empty()
    } else {
        let rest = write_payloads(msgs.drop_first());
        match msgs.first() {
            Msg::Write(payload) => seq![payload] + rest,
            _ => rest,
        }
    }
}

/// The character stream the terminal receives while the actor processes
/// `msgs`: every processed write's payload, whole and in arrival order.
pub open spec fn stream(msgs: Seq<Msg>) -> Seq<char> {
    write_payloads(processed(msgs)).flatten()
}

/// Where the `i`-th processed write's payload starts in the stream.
pub open spec fn stream_offset(msgs: Seq<Msg>, i: int) -> int {
    write_payloads(processed(msgs)).take(i).flatten().len() as int
}

/// In a flattened sequence of chunks, each chunk occupies one contiguous
/// range, starting where the chunks before it end.
proof fn lemma_flatten_segment(ws: Seq<Seq<char>>, i: int)
    requires
        0 <= i < ws.len(),
    ensures
        ws.take(i).flatten().len() + ws[i].len() <= ws.flatten().len(),
        ws.flatten().subrange(
            ws.take(i).flatten().len() as int,
            ws.take(i).flatten().len() + ws[i].len() as int,
        ) == ws[i],
{
    let a = ws.take(i);
    let b = seq![ws[i]];
    let c = ws.skip(i + 1);
    assert(ws =~= (a + b) + c);
    lemma_flatten_concat(a + b, c);
    lemma_flatten_concat(a, b);
    assert(b.flatten() == b[0]) by {
        b.lemma_flatten_singleton();
    }
    assert(ws.flatten() =~= (a.flatten() + ws[i]) + c.flatten());
    let off = a.flatten().len() as int;
    assert(ws.flatten().subrange(off, off + ws[i].len()) =~= ws[i]);
}

/// Law: concurrent producers never interleave two terminal writes. Each
/// write's payload appears in the terminal's stream as one contiguous range;
/// whatever order the channel chose for the messages, no byte of another
/// write falls inside it.
pub proof fn lemma_writes_contiguous(msgs: Seq<Msg>, i: int)
    requires
        0 <= i < write_payloads(processed(msgs)).len(),
    ensures
        stream_offset(msgs, i) + write_payloads(processed(msgs))[i].len() <= stream(msgs).len(),
        stream(msgs).subrange(
            stream_offset(msgs, i),
            stream_offset(msgs, i) + write_payloads(processed(msgs))[i].len(),
        ) == write_payloads(processed(msgs))[i],
{
    lemma_flatten_segment(write_payloads(processed(msgs)), i);
}

/// Law: the actor only ever stops at a `Shutdown`. A batch without one —
/// such as everything a run sends before it stops — is processed in full.
pub proof fn lemma_processed_all(msgs: Seq<Msg>)
    requires
        forall|i: int| 0 <= i < msgs.len() ==> !((#[trigger] msgs[i]) is Shutdown),
    ensures
        processed(msgs) == msgs,
    decreases msgs.len(),
{
    if msgs.len() > 0 {
        assert forall|i: int| 0 <= i < msgs.drop_first().len() implies !((
        #[trigger] msgs.drop_first()[i]) is Shutdown) by {
            assert(msgs.drop_first()[i] == msgs[i + 1]);
        }
        lemma_processed_all(msgs.drop_first());
        assert(processed(msgs) =~= msgs);
    }
}

/// Law: `Shutdown` ends the actor. Whatever follows the first `Shutdown` in
/// a batch is never processed: no write, flush or reply comes from it.
pub proof fn lemma_shutdown_ends_processing(msgs: Seq<Msg>, i: int)
    requires
        0 <= i < msgs.len(),
        msgs[i] is Shutdown,
    ensures
        processed(msgs).len() <= i,
    decreases i,
{
    if !(msgs.first() is Shutdown) {
        lemma_shutdown_ends_processing(msgs.drop_first(), i - 1);
    }
}

/// How many position queries a batch of messages holds.
pub open spec fn request_count(msgs: Seq<Msg>) -> nat
    decreases msgs.len(),
{
    if msgs.len() == 0 {
        0
    } else {
        (if msgs.first() is RequestPos {
            1nat
        } else {
            0nat
        }) + request_count(msgs.drop_first())
    }
}

/// How many position replies a batch of actions sends.
pub open spec fn reply_count(acts: Seq<Act>) -> nat
    decreases acts.len(),
{
    if acts.len() == 0 {
        0
    } else {
        (if acts.first() is ReplyPosition {
            1nat
        } else {
            0nat
        }) + reply_count(acts.drop_first())
    }
}

/// The actions for a batch send one reply for each position query in it.
proof fn lemma_reply_count_for(msgs: Seq<Msg>)
    ensures
        reply_count(actions_for(msgs)) == request_count(msgs),
    decreases msgs.len(),
{
    if msgs.len() == 0 {
        assert(actions_for(msgs) =~= Seq::<Act>::empty());
    } else {
        lemma_reply_count_for(msgs.drop_first());
        assert(actions_for(msgs).drop_first() =~= actions_for(msgs.drop_first()));
        assert(actions_for(msgs).first() == action_for(msgs.first()));
    }
}

/// Law: `RequestPos` always yields exactly one reply per request. Over any
/// batch of messages, the actions the actor performs before shutting down
/// send exactly as many position replies as the processed messages hold
/// position queries — never zero for a request, never two.
pub proof fn lemma_one_reply_per_request(msgs: Seq<Msg>)
    ensures
        reply_count(actions_for(processed(msgs))) == request_count(processed(msgs)),
{
    lemma_reply_count_for(processed(msgs));
}

} // verus!
