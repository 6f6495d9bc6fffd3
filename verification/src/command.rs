//! The commands that a frame of drawing produces.

use vstd::prelude::*;
use crate::context::DrawContext;
use crate::material::MaterialId;
use crate::primitive::Primitive;
use crate::value::{BufferHandle, Color};

verus! {

/// Commands generated by drawing that instruct how to create the meshes and
/// materials that will be rendered.
#[derive(Clone, Copy, Debug, PartialEq, Eq, Structural)]
pub enum DrawCommand {
    /// Draw a primitive.
    Primitive(Primitive),
    /// Draw a primitive once per entry of an instance buffer.
    Instanced(Primitive, BufferHandle),
    /// Draw a primitive with arguments that the device reads from a buffer.
    /// The second buffer, where there is one, replaces the primitive's own
    /// vertex data.
    Indirect(Primitive, BufferHandle, Option<BufferHandle>),
    /// A change in the rendering context occurred.
    Context(DrawContext),
    /// A change in the material occurred.
    Material(MaterialId),
    /// A change in the background color occurred.
    BackgroundColor(Color),
}

/// Why a slot could not be finished.
#[derive(Clone, Copy, Debug, PartialEq, Eq, Structural)]
pub enum DrawError {
    /// The slot holds no primitive in progress: it was finished before, or
    /// never reserved.
    AlreadyFinalized,
    /// An indirect draw was committed without a buffer of arguments.
    MissingIndirectBuffer,
    /// The slot is captured for instancing and cannot be captured again.
    CaptureConflict,
}

impl DrawCommand {
    /// Whether the command draws a primitive, in any of the three ways.
    pub open spec fn spec_is_terminal(self) -> bool {
        match self {
            DrawCommand::Primitive(_) => true,
            DrawCommand::Instanced(_, _) => true,
            DrawCommand::Indirect(_, _, _) => true,
            _ => false,
        }
    }

    /// Whether the command draws a primitive, in any of the three ways.
    pub fn is_terminal(&self) -> (terminal: bool)
        ensures
            terminal == self.spec_is_terminal(),
    {
        match self {
            DrawCommand::Primitive(_) => true,
            DrawCommand::Instanced(_, _) => true,
            DrawCommand::Indirect(_, _, _) => true,
            _ => false,
        }
    }
}

} // verus!
