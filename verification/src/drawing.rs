//! The builder of one primitive in progress.

use vstd::prelude::*;
use crate::command::DrawError;
use crate::primitive::{Dimensions, Position, Primitive, Tri};
use crate::state::{capture_outcome, State};
use crate::value::{BufferHandle, Color, Point2};

verus! {

/// A primitive in the process of being drawn. It owns one reserved slot of
/// the session's log; each setter changes the primitive in progress there,
/// and `finish` commits it.
///
/// A drawing that is never finished is committed when the frame is drained.
#[derive(Debug)]
pub struct Drawing<T> {
    /// The slot of the log that the primitive will be committed to.
    index: usize,
    /// The kind of primitive that is being drawn.
    _ty: core::marker::PhantomData<T>,
}

/// The drawing context for a `Tri`.
pub type DrawingTri = Drawing<Tri>;

/// The primitive at `slot` with `dimensions` along the axes where one is
/// given, and as it was along the others.
pub open spec fn spec_resized(primitive: Primitive, dimensions: Dimensions) -> Primitive {
    match primitive.spec_dimensions() {
        Some(before) => primitive.spec_with_dimensions(
            Dimensions {
                x: if dimensions.x is Some { dimensions.x } else { before.x },
                y: if dimensions.y is Some { dimensions.y } else { before.y },
                z: if dimensions.z is Some { dimensions.z } else { before.z },
            },
        ),
        None => primitive,
    }
}

/// The triangle inside `primitive` with the given corners; another
/// primitive stays as it is.
pub open spec fn spec_tri_points(primitive: Primitive, a: Point2, b: Point2, c: Point2) -> Primitive {
    match primitive {
        Primitive::Tri(tri) => Primitive::Tri(tri.spec_points(a, b, c)),
        _ => primitive,
    }
}

/// The triangle inside `primitive` with its outline stroked; another
/// primitive stays as it is.
pub open spec fn spec_tri_stroke(primitive: Primitive, color: Color) -> Primitive {
    match primitive {
        Primitive::Tri(tri) => Primitive::Tri(tri.spec_stroke(color)),
        _ => primitive,
    }
}

impl<T> Drawing<T> {
    /// The slot that this drawing owns.
    pub closed spec fn spec_index(&self) -> usize {
        self.index
    }

    /// The drawing that owns `index`.
    pub(crate) fn new(index: usize) -> (drawing: Drawing<T>)
        ensures
            drawing.spec_index() == index,
    {
        Drawing { index, _ty: core::marker::PhantomData }
    }

    /// The slot that this drawing owns.
    pub fn index(&self) -> (index: usize)
        ensures
            index == self.spec_index(),
    {
        self.index
    }

    /// Replaces the primitive in progress by `primitive`, where there is
    /// one in progress.
    fn put(self, state: &mut State, primitive: Primitive) -> (drawing: Drawing<T>)
        requires
            old(state)@.wf(),
        ensures
            drawing.spec_index() == self.spec_index(),
            final(state)@ == old(state)@.replace(self.spec_index(), primitive),
            final(state)@.wf(),
    {
        let _ = state.set_primitive(self.index, primitive);
        self
    }

    /// Gives the primitive the fill colour `color`.
    pub fn color(self, state: &mut State, color: Color) -> (drawing: Drawing<T>)
        requires
            old(state)@.wf(),
        ensures
            drawing.spec_index() == self.spec_index(),
            final(state)@ == old(state)@.replace(
                self.spec_index(),
                old(state)@.drawing[self.spec_index()].spec_with_color(color),
            ),
            final(state)@.wf(),
    {
        match state.primitive(self.index) {
            Some(primitive) => self.put(state, primitive.with_color(color)),
            None => self,
        }
    }

    /// Moves the primitive to `x` and `y`, keeping its depth.
    pub fn x_y(self, state: &mut State, x: u32, y: u32) -> (drawing: Drawing<T>)
        requires
            old(state)@.wf(),
        ensures
            drawing.spec_index() == self.spec_index(),
            final(state)@ == old(state)@.replace(
                self.spec_index(),
                old(state)@.drawing[self.spec_index()].spec_with_position(
                    Position { x, y, z: old(state)@.drawing[self.spec_index()].spec_position().z },
                ),
            ),
            final(state)@.wf(),
    {
        match state.primitive(self.index) {
            Some(primitive) => {
                let z: u32 = primitive.position().z;
                self.put(state, primitive.with_position(Position { x, y, z }))
            },
            None => self,
        }
    }

    /// Moves the primitive to `x`, `y` and `z`.
    pub fn x_y_z(self, state: &mut State, x: u32, y: u32, z: u32) -> (drawing: Drawing<T>)
        requires
            old(state)@.wf(),
        ensures
            drawing.spec_index() == self.spec_index(),
            final(state)@ == old(state)@.replace(
                self.spec_index(),
                old(state)@.drawing[self.spec_index()].spec_with_position(Position { x, y, z }),
            ),
            final(state)@.wf(),
    {
        match state.primitive(self.index) {
            Some(primitive) => self.put(state, primitive.with_position(Position { x, y, z })),
            None => self,
        }
    }

    /// Sets the extent along the axes for which `dimensions` gives one. A
    /// primitive that has no extent stays as it is.
    fn resize(self, state: &mut State, dimensions: Dimensions) -> (drawing: Drawing<T>)
        requires
            old(state)@.wf(),
        ensures
            drawing.spec_index() == self.spec_index(),
            final(state)@ == old(state)@.replace(
                self.spec_index(),
                spec_resized(old(state)@.drawing[self.spec_index()], dimensions),
            ),
            final(state)@.wf(),
    {
        match state.primitive(self.index) {
            Some(primitive) => {
                match primitive.dimensions() {
                    Some(before) => {
                        let merged = Dimensions {
                            x: if dimensions.x.is_some() { dimensions.x } else { before.x },
                            y: if dimensions.y.is_some() { dimensions.y } else { before.y },
                            z: if dimensions.z.is_some() { dimensions.z } else { before.z },
                        };
                        self.put(state, primitive.with_dimensions(merged))
                    },
                    None => self.put(state, primitive),
                }
            },
            None => self,
        }
    }

    /// Sets the width of the primitive.
    pub fn w(self, state: &mut State, w: u32) -> (drawing: Drawing<T>)
        requires
            old(state)@.wf(),
        ensures
            drawing.spec_index() == self.spec_index(),
            final(state)@ == old(state)@.replace(
                self.spec_index(),
                spec_resized(
                    old(state)@.drawing[self.spec_index()],
                    Dimensions { x: Some(w), y: None, z: None },
                ),
            ),
            final(state)@.wf(),
    {
        self.resize(state, Dimensions { x: Some(w), y: None, z: None })
    }

    /// Sets the height of the primitive.
    pub fn h(self, state: &mut State, h: u32) -> (drawing: Drawing<T>)
        requires
            old(state)@.wf(),
        ensures
            drawing.spec_index() == self.spec_index(),
            final(state)@ == old(state)@.replace(
                self.spec_index(),
                spec_resized(
                    old(state)@.drawing[self.spec_index()],
                    Dimensions { x: None, y: Some(h), z: None },
                ),
            ),
            final(state)@.wf(),
    {
        self.resize(state, Dimensions { x: None, y: Some(h), z: None })
    }

    /// Sets the width and the height of the primitive.
    pub fn w_h(self, state: &mut State, w: u32, h: u32) -> (drawing: Drawing<T>)
        requires
            old(state)@.wf(),
        ensures
            drawing.spec_index() == self.spec_index(),
            final(state)@ == old(state)@.replace(
                self.spec_index(),
                spec_resized(
                    old(state)@.drawing[self.spec_index()],
                    Dimensions { x: Some(w), y: Some(h), z: None },
                ),
            ),
            final(state)@.wf(),
    {
        self.resize(state, Dimensions { x: Some(w), y: Some(h), z: None })
    }

    /// Commits the primitive to its slot and ends the drawing.
    ///
    /// Fails with `AlreadyFinalized`, and changes nothing, where the slot
    /// holds no primitive in progress any more. A slot that was captured
    /// for instancing meanwhile is left to its instanced draw.
    pub fn finish(self, state: &mut State) -> (result: Result<(), DrawError>)
        requires
            old(state)@.wf(),
        ensures
            final(state)@ == old(state)@.finish(self.spec_index()),
            final(state)@.wf(),
            result is Ok <==> old(state)@.drawing.contains_key(self.spec_index()),
            result is Err ==> result == Err::<(), DrawError>(DrawError::AlreadyFinalized),
    {
        state.finish_drawing(self.index)
    }

    /// Captures the primitive for instancing over `buffer` and ends the
    /// drawing: no plain command will be committed for its slot.
    pub fn instanced(self, state: &mut State, buffer: BufferHandle) -> (result: Result<
        (),
        DrawError,
    >)
        requires
            old(state)@.wf(),
        ensures
            final(state)@ == old(state)@.capture_instanced(self.spec_index(), buffer),
            final(state)@.wf(),
            result == capture_outcome(old(state)@, self.spec_index()),
    {
        state.capture_instanced(self.index, buffer)
    }

    /// Commits the primitive as an indirect draw and ends the drawing: the
    /// command takes the primitive's slot, and no plain command will be
    /// committed for it.
    pub fn indirect(
        self,
        state: &mut State,
        indirect_buffer: BufferHandle,
        vertex_buffer: Option<BufferHandle>,
    ) -> (result: Result<(), DrawError>)
        requires
            old(state)@.wf(),
        ensures
            final(state)@ == old(state)@.finish_indirect(
                self.spec_index(),
                indirect_buffer,
                vertex_buffer,
            ),
            final(state)@.wf(),
            result == capture_outcome(old(state)@, self.spec_index()),
    {
        state.insert_indirect_draw_command(self.index, indirect_buffer, vertex_buffer)
    }
}

impl Drawing<Tri> {
    /// Stroke the outline with the given color.
    pub fn stroke(self, state: &mut State, color: Color) -> (drawing: Drawing<Tri>)
        requires
            old(state)@.wf(),
        ensures
            drawing.spec_index() == self.spec_index(),
            final(state)@ == old(state)@.replace(
                self.spec_index(),
                spec_tri_stroke(old(state)@.drawing[self.spec_index()], color),
            ),
            final(state)@.wf(),
    {
        match state.primitive(self.index) {
            Some(primitive) => {
                match primitive {
                    Primitive::Tri(tri) => self.put(state, Primitive::Tri(tri.stroke(color))),
                    _ => self.put(state, primitive),
                }
            },
            None => self,
        }
    }

    /// Use the given points as the vertices (corners) of the triangle.
    pub fn points(self, state: &mut State, a: Point2, b: Point2, c: Point2) -> (drawing: Drawing<
        Tri,
    >)
        requires
            old(state)@.wf(),
        ensures
            drawing.spec_index() == self.spec_index(),
            final(state)@ == old(state)@.replace(
                self.spec_index(),
                spec_tri_points(old(state)@.drawing[self.spec_index()], a, b, c),
            ),
            final(state)@.wf(),
    {
        match state.primitive(self.index) {
            Some(primitive) => {
                match primitive {
                    Primitive::Tri(tri) => self.put(state, Primitive::Tri(tri.points(a, b, c))),
                    _ => self.put(state, primitive),
                }
            },
            None => self,
        }
    }
}

} // verus!
