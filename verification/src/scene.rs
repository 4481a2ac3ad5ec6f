//! The Scene trait: the polymorphic unit of application behavior the runtime
//! drives. A scene never owns terminal access; it issues writes through the
//! state it is handed.

pub mod helper;

use crate::key::Key;
use crate::state::State;
use vstd::prelude::*;

verus! {

/// A replaceable unit of application behavior with three lifecycle hooks.
/// The runtime owns exactly one current scene at a time and calls every hook
/// while holding the state lock, so no two hook invocations ever overlap.
pub trait Scene: Sized {
    /// Initializes the scene. The runtime calls it exactly once each time
    /// this scene becomes current, before any `process_input` or `update` on
    /// it.
    fn init(&mut self, state: &mut State<Self>);

    /// Called on every key press while this scene is current.
    fn process_input(&mut self, state: &mut State<Self>, key: Key);

    /// Called on every update tick while this scene is current, independent
    /// of input.
    fn update(&mut self, state: &mut State<Self>);
}

} // verus!
