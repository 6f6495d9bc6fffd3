//! Drawing a primitive with arguments that the device reads from a buffer.

use vstd::prelude::*;
use crate::command::DrawError;
use crate::drawing::Drawing;
use crate::model::StateView;
use crate::state::{capture_outcome, State};
use crate::value::BufferHandle;

verus! {

/// An indirect draw in the making: a captured primitive, the buffer of
/// draw arguments and, optionally, a buffer of vertices that replaces the
/// primitive's own.
#[derive(Debug)]
pub struct Indirect {
    primitive_index: Option<usize>,
    indirect_buffer: Option<BufferHandle>,
    vertex_buffer: Option<BufferHandle>,
}

/// What an indirect draw in the making holds.
pub struct IndirectView {
    pub primitive_index: Option<usize>,
    pub indirect_buffer: Option<BufferHandle>,
    pub vertex_buffer: Option<BufferHandle>,
}

/// An indirect draw with nothing captured and no buffer.
pub fn new() -> (indirect: Indirect)
    ensures
        indirect@ == (IndirectView {
            primitive_index: None,
            indirect_buffer: None,
            vertex_buffer: None,
        }),
{
    Indirect { primitive_index: None, indirect_buffer: None, vertex_buffer: None }
}

impl View for Indirect {
    type V = IndirectView;

    closed spec fn view(&self) -> IndirectView {
        IndirectView {
            primitive_index: self.primitive_index,
            indirect_buffer: self.indirect_buffer,
            vertex_buffer: self.vertex_buffer,
        }
    }
}

/// How the commit of an indirect draw ends: well where nothing was captured
/// (there is nothing to do); with `MissingIndirectBuffer` where a primitive
/// was captured and no buffer of arguments given; and else as the capture
/// of the slot ends.
pub open spec fn commit_outcome(session: StateView, indirect: IndirectView) -> Result<
    (),
    DrawError,
> {
    match indirect.primitive_index {
        None => Ok(()),
        Some(index) => match indirect.indirect_buffer {
            None => Err(DrawError::MissingIndirectBuffer),
            Some(_) => capture_outcome(session, index),
        },
    }
}

/// The session after the commit of an indirect draw: the captured slot
/// holds the indirect command where the commit ends well, and nothing
/// changes where it does not.
pub open spec fn commit_effect(session: StateView, indirect: IndirectView) -> StateView {
    match (indirect.primitive_index, indirect.indirect_buffer) {
        (Some(index), Some(buffer)) => session.finish_indirect(
            index,
            buffer,
            indirect.vertex_buffer,
        ),
        _ => session,
    }
}

impl Indirect {
    /// Captures the primitive of `drawing`. The drawing ends here: its
    /// primitive will be committed by this indirect draw.
    pub fn primitive<T>(self, drawing: Drawing<T>) -> (indirect: Indirect)
        ensures
            indirect@ == (IndirectView {
                primitive_index: Some(drawing.spec_index()),
                ..self@
            }),
    {
        let mut indirect = self;
        indirect.primitive_index = Some(drawing.index());
        indirect
    }

    /// Sets the buffer that holds the draw arguments.
    pub fn buffer(self, ssbo: BufferHandle) -> (indirect: Indirect)
        ensures
            indirect@ == (IndirectView { indirect_buffer: Some(ssbo), ..self@ }),
    {
        let mut indirect = self;
        indirect.indirect_buffer = Some(ssbo);
        indirect
    }

    /// Sets or removes the buffer of vertices that replaces the
    /// primitive's own. Without one, the renderer draws the primitive's
    /// own vertices.
    pub fn vertex_buffer(self, ssbo: Option<BufferHandle>) -> (indirect: Indirect)
        ensures
            indirect@ == (IndirectView { vertex_buffer: ssbo, ..self@ }),
    {
        let mut indirect = self;
        indirect.vertex_buffer = ssbo;
        indirect
    }

    /// Commits the captured primitive as an indirect draw.
    ///
    /// A commit without a buffer of arguments fails with
    /// `MissingIndirectBuffer`; the primitive then stays in progress and is
    /// not lost.
    pub fn finish(self, state: &mut State) -> (result: Result<(), DrawError>)
        requires
            old(state)@.wf(),
        ensures
            result == commit_outcome(old(state)@, self@),
            final(state)@ == commit_effect(old(state)@, self@),
            final(state)@.wf(),
    {
        match self.primitive_index {
            None => Ok(()),
            Some(index) => match self.indirect_buffer {
                None => Err(DrawError::MissingIndirectBuffer),
                Some(buffer) => state.insert_indirect_draw_command(
                    index,
                    buffer,
                    self.vertex_buffer,
                ),
            },
        }
    }
}

} // verus!
