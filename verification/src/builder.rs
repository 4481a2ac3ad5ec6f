//! The command buffer: an ordered batch of rendered fragments, serialized
//! into one payload and forwarded to the I/O actor as a single write.

use crate::message::{Command, Msg};
use crate::render::Render;
use crate::state::State;
use vstd::prelude::*;
use vstd::string::StringExecFns;

verus! {

/// Builds one batched command. Append fragments, then execute: the whole
/// batch is forwarded as one `Write`, so the I/O actor can never interleave
/// another write inside it.
pub struct CommandBuilder {
    buffer: Vec<String>,
}

impl CommandBuilder {
    /// The rendered fragments appended so far, in append order.
    pub closed spec fn fragments(self) -> Seq<Seq<char>> {
        self.buffer@.map_values(|s: String| s@)
    }

    /// The payload one `execute` would send: each fragment's rendering,
    /// concatenated in append order, nothing reordered and nothing dropped.
    pub open spec fn payload_text(self) -> Seq<char> {
        self.fragments().flatten()
    }

    /// A builder with nothing appended.
    pub(crate) fn empty() -> (b: CommandBuilder)
        ensures
            b.fragments() == Seq::<Seq<char>>::empty(),
    {
        let b = CommandBuilder { buffer: Vec::new() };
        proof {
            assert(b.fragments() =~= Seq::<Seq<char>>::empty());
        }
        b
    }

    /// Appends one fragment's rendering to the batch.
    pub fn append<D: Render>(self, item: &D) -> (r: CommandBuilder)
        ensures
            r.fragments() == self.fragments().push(item.text()),
    {
        let mut buffer = self.buffer;
        buffer.push(item.render());
        let r = CommandBuilder { buffer };
        proof {
            assert(r.fragments() =~= self.fragments().push(item.text()));
        }
        r
    }

    /// Serializes the batch into one payload and queues it for the I/O actor
    /// as a single `Write`. The whole batch is forwarded or none of it; a
    /// later `flush` makes it visible.
    pub fn execute<S>(self, state: &mut State<S>)
        ensures
            final(state).same_but_pending(*old(state)),
            final(state).pending() == old(state).pending().push(Msg::Write(self.payload_text())),
    {
        let n = self.buffer.len();
        let mut payload = String::new();
        let mut i: usize = 0;
        while i < n
            invariant
                i <= n,
                n == self.buffer.len(),
                payload@ == self.fragments().take(i as int).flatten(),
            decreases n - i,
        {
            payload.append(self.buffer[i].as_str());
            proof {
                let frags = self.fragments();
                assert(frags.take(i + 1).drop_last() =~= frags.take(i as int));
                assert(frags.take(i + 1).last() == frags[i as int]);
                assert(frags.take(i + 1) =~= frags.take(i as int).push(frags[i as int]));
                frags.take(i as int).lemma_flatten_push(frags[i as int]);
            }
            i += 1;
        }
        proof {
            assert(self.fragments().take(n as int) =~= self.fragments());
        }
        state.push_command(Command::Write(payload));
    }
}

} // verus!
