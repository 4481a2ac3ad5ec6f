//! Small conveniences for scene authors.

use crate::commands::{clear_all_text, goto_text, ClearAll, Goto};
use crate::message::Msg;
use crate::state::State;
use crate::Point;
use vstd::prelude::*;

verus! {

/// Queues one write that clears the screen and homes the cursor, but does
/// not flush.
pub fn clear<S>(state: &mut State<S>)
    ensures
        final(state).same_but_pending(*old(state)),
        final(state).pending() == old(state).pending().push(
            Msg::Write(clear_all_text() + goto_text(1, 1)),
        ),
{
    let b = state.command();
    let b = b.append(&ClearAll);
    let b = b.append(&Goto(Point::new(0, 0)));
    b.execute(state);
    proof {
        let frags = seq![clear_all_text(), goto_text(1, 1)];
        assert(frags.flatten() =~= clear_all_text() + goto_text(1, 1)) by {
            reveal_with_fuel(Seq::<_>::flatten, 3);
        }
        assert(Seq::<Seq<char>>::empty().push(clear_all_text()).push(goto_text(1, 1)) =~= frags);
    }
}

} // verus!
