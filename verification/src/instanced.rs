//! Drawing one primitive many times over a buffer of per-instance data.

use vstd::prelude::*;
use crate::command::DrawError;
use crate::drawing::Drawing;
use crate::state::{capture_outcome, State};
use crate::value::BufferHandle;

verus! {

/// An instanced draw in the making. Once a primitive is attached, its slot
/// ends as an instanced command: when `finish` is called, or when the frame
/// is drained.
#[derive(Debug)]
pub struct Instanced {
    /// The slot of the attached primitive.
    primitive_index: Option<usize>,
}

/// An instanced draw with nothing attached.
pub fn new() -> (instanced: Instanced)
    ensures
        instanced.spec_primitive_index() is None,
{
    Instanced { primitive_index: None }
}

impl Instanced {
    /// The slot of the attached primitive.
    pub closed spec fn spec_primitive_index(&self) -> Option<usize> {
        self.primitive_index
    }

    /// The slot of the attached primitive.
    pub fn primitive_index(&self) -> (index: Option<usize>)
        ensures
            index == self.spec_primitive_index(),
    {
        self.primitive_index
    }

    /// Attaches the primitive of `drawing`, to be drawn once per entry of
    /// `buffer`, and captures its slot for instancing.
    ///
    /// Where the slot cannot be captured, nothing changes and nothing is
    /// attached: the refusal is handed back.
    pub fn with<T>(self, state: &mut State, drawing: Drawing<T>, buffer: BufferHandle) -> (result:
        Result<Instanced, DrawError>)
        requires
            old(state)@.wf(),
        ensures
            final(state)@ == old(state)@.capture_instanced(drawing.spec_index(), buffer),
            final(state)@.wf(),
            match result {
                Ok(instanced) => capture_outcome(old(state)@, drawing.spec_index()) is Ok
                    && instanced.spec_primitive_index() == Some(drawing.spec_index()),
                Err(error) => capture_outcome(old(state)@, drawing.spec_index()) == Err::<
                    (),
                    DrawError,
                >(error),
            },
    {
        let index = drawing.index();
        match drawing.instanced(state, buffer) {
            Ok(()) => Ok(Instanced { primitive_index: Some(index) }),
            Err(error) => Err(error),
        }
    }

    /// Commits the instanced draw of the attached primitive, where one is
    /// attached.
    ///
    /// Fails with `AlreadyFinalized`, and changes nothing, where the slot
    /// is no longer captured: the frame was drained meanwhile.
    pub fn finish(self, state: &mut State) -> (result: Result<(), DrawError>)
        requires
            old(state)@.wf(),
        ensures
            final(state)@ == (match self.spec_primitive_index() {
                Some(index) => old(state)@.finish_instanced(index),
                None => old(state)@,
            }),
            final(state)@.wf(),
            result is Ok <==> (self.spec_primitive_index() is Some ==> old(
                state,
            )@.instanced.contains_key(self.spec_primitive_index().unwrap())),
            result is Err ==> result == Err::<(), DrawError>(DrawError::AlreadyFinalized),
    {
        match self.primitive_index {
            Some(index) => state.finish_instanced(index),
            None => Ok(()),
        }
    }
}

} // verus!
