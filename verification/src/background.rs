//! Clearing the frame before anything is drawn.

use vstd::prelude::*;
use crate::state::State;
use crate::value::Color;

verus! {

/// A request to clear the frame, in the making.
#[derive(Clone, Copy, Debug)]
pub struct Background {}

/// A request to clear the frame.
pub fn new() -> Background {
    Background {  }
}

impl Background {
    /// Clear the frame with the given color. The request is recorded in the
    /// log and replaces the one that was pending.
    pub fn color(self, state: &mut State, color: Color) -> (background: Background)
        requires
            old(state)@.wf(),
        ensures
            final(state)@ == old(state)@.with_background(color),
            final(state)@.wf(),
    {
        state.set_background_color(color);
        self
    }
}

} // verus!
