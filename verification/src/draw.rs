//! A simple API for drawing 2D and 3D graphics.
//!
//! See [Draw] for more details.

use vstd::prelude::*;
use vstd::string::StringSliceAdditionalSpecFns;
use crate::background::Background;
use crate::command::DrawCommand;
use crate::context::{spec_identity, DrawContext};
use crate::drawing::Drawing;
use crate::indirect::{Indirect, IndirectView};
use crate::instanced::Instanced;
use crate::material::{
    random_instance_number, BlendComponent, BlendState, DefaultMaterial, Material, MaterialError,
    MaterialId, PolygonMode, RANDOM_ID_BITS, RANDOM_ID_MASK,
};
use crate::model::StateView;
use crate::primitive::{
    Arrow, Ellipse, Kind, Line, PathInit, PathStroke, PolygonInit, Primitive, Quad, Rect, Text,
    Texture, Tri, Vertexless,
};
use crate::state::State;

verus! {

/// A handle for drawing into a session.
///
/// A handle is a small value: a transform context, the id of a material and
/// the window that it draws to. Handles derived from one another (with
/// another context or another material) draw into the same [State], which
/// the caller lends to each call, and never change one another.
#[derive(Clone, Copy, Debug, PartialEq, Eq, Structural)]
pub struct Draw {
    /// The current context of this handle.
    pub context: DrawContext,
    /// The current material of this handle.
    pub material: MaterialId,
    /// The window to which this handle is associated.
    pub window: u64,
}

/// A reference to a [Draw] instance that is either borrowed or owned.
#[derive(Clone, Copy, Debug)]
pub enum DrawRef<'a> {
    Borrowed(&'a Draw),
    Owned(Draw),
}

impl<'a> DrawRef<'a> {
    /// The handle that is referred to.
    pub open spec fn spec_draw(self) -> Draw {
        match self {
            DrawRef::Borrowed(draw) => *draw,
            DrawRef::Owned(draw) => draw,
        }
    }
}

impl<'a> core::ops::Deref for DrawRef<'a> {
    type Target = Draw;

    fn deref(&self) -> (draw: &Draw)
        ensures
            *draw == self.spec_draw(),
    {
        match self {
            DrawRef::Borrowed(draw) => *draw,
            DrawRef::Owned(draw) => draw,
        }
    }
}

/// The material that a new handle draws with.
pub open spec fn spec_default_material() -> Material {
    Material::Default(DefaultMaterial { blend: None, polygon_mode: PolygonMode::Fill })
}

/// The default material bound under `id`, or why there is none to hand out:
/// as `StateView::typed`, and `TypeMismatch` where the material is not the
/// default one.
pub open spec fn spec_default_material_of(session: StateView, id: MaterialId) -> Result<
    DefaultMaterial,
    MaterialError,
> {
    match session.typed(id) {
        Ok(Material::Default(material)) => Ok(material),
        Ok(Material::Custom(_)) => Err(MaterialError::TypeMismatch),
        Err(error) => Err(error),
    }
}

/// `material` blending colour and alpha with `descriptor`.
pub open spec fn spec_blended(material: DefaultMaterial, descriptor: BlendComponent) -> Material {
    Material::Default(
        DefaultMaterial {
            blend: Some(BlendState { color: descriptor, alpha: descriptor }),
            ..material
        },
    )
}

/// `material` rasterised in `polygon_mode`.
pub open spec fn spec_with_polygon_mode(
    material: DefaultMaterial,
    polygon_mode: PolygonMode,
) -> Material {
    Material::Default(DefaultMaterial { polygon_mode, ..material })
}

impl Draw {
    /// Starts a session for `window`: the handle draws under the identity
    /// context with the default material, which is bound in the new session
    /// under a random instance number.
    pub fn new(window: u64) -> (made: (Draw, State))
        ensures
            made.0.context.transform == spec_identity(),
            made.0.window == window,
            made.0.material == StateView::bound_id(made.0.material.uuid, spec_default_material()),
            made.0.material.uuid & RANDOM_ID_MASK == RANDOM_ID_BITS,
            made.1@ == StateView::empty().bind(made.0.material.uuid, spec_default_material()),
            made.1@.wf(),
    {
        Draw::with_instance_number(window, random_instance_number())
    }

    /// Starts a session for `window`, as `new` does, with the default
    /// material bound under the instance number `uuid`.
    pub fn with_instance_number(window: u64, uuid: u128) -> (made: (Draw, State))
        ensures
            made.0 == (Draw {
                context: DrawContext { transform: spec_identity() },
                material: StateView::bound_id(uuid, spec_default_material()),
                window,
            }),
            made.1@ == StateView::empty().bind(uuid, spec_default_material()),
            made.1@.wf(),
    {
        let mut state = State::default();
        let context = DrawContext::default();
        let material = Material::Default(DefaultMaterial::default());
        let material_id = state.bind(uuid, material);
        (Draw { context, material: material_id, window }, state)
    }

    /// Resets all state within the session and gives this handle a default
    /// material of its own, bound under a random instance number. The
    /// session then remembers neither a context nor a material, so the next
    /// primitive emits both change commands.
    pub fn reset(&mut self, state: &mut State)
        ensures
            final(self).context == old(self).context,
            final(self).window == old(self).window,
            final(self).material == StateView::bound_id(
                final(self).material.uuid,
                spec_default_material(),
            ),
            final(self).material.uuid & RANDOM_ID_MASK == RANDOM_ID_BITS,
            final(state)@ == StateView::cleared(old(state)@.theme).bind(
                final(self).material.uuid,
                spec_default_material(),
            ),
            final(state)@.wf(),
    {
        self.reset_with(state, random_instance_number());
    }

    /// Resets as `reset` does, with the default material bound under the
    /// instance number `uuid`.
    pub fn reset_with(&mut self, state: &mut State, uuid: u128)
        ensures
            *final(self) == (Draw {
                material: StateView::bound_id(uuid, spec_default_material()),
                ..*old(self)
            }),
            final(state)@ == StateView::cleared(old(state)@.theme).bind(
                uuid,
                spec_default_material(),
            ),
            final(state)@.wf(),
    {
        state.reset();
        self.material = state.bind(uuid, Material::Default(DefaultMaterial::default()));
    }

    /// Produce a new handle with the given context. The material and the
    /// window stay; this handle is not changed.
    pub fn context(&self, context: DrawContext) -> (draw: Draw)
        ensures
            draw == (Draw { context, ..*self }),
    {
        Draw { context, material: self.material, window: self.window }
    }

    /// The material that this handle draws with.
    ///
    /// The handle's material must be bound in the session, in the shape
    /// that its id declares: a handle whose material is missing or of
    /// another shape is outside what this function is for. `State::get_typed`
    /// tells the cases apart.
    pub fn clone_material(&self, state: &State) -> (material: Material)
        requires
            state@.typed(self.material) is Ok,
        ensures
            state@.typed(self.material) == Ok::<Material, MaterialError>(material),
    {
        match state.get_typed(self.material) {
            Ok(material) => *material,
            Err(_) => vstd::pervasive::unreached(),
        }
    }

    /// Produce a new handle with a new material, bound under a random
    /// instance number. The context and the window stay; this handle is not
    /// changed.
    pub fn material(&self, state: &mut State, material: Material) -> (draw: Draw)
        ensures
            draw == (Draw {
                material: StateView::bound_id(draw.material.uuid, material),
                ..*self
            }),
            draw.material.uuid & RANDOM_ID_MASK == RANDOM_ID_BITS,
            final(state)@ == old(state)@.bind(draw.material.uuid, material),
            old(state)@.wf() ==> final(state)@.wf(),
    {
        self.material_with(state, random_instance_number(), material)
    }

    /// Produce a new handle with a new material, as `material` does, bound
    /// under the instance number `uuid`.
    pub fn material_with(&self, state: &mut State, uuid: u128, material: Material) -> (draw: Draw)
        ensures
            draw == (Draw { material: StateView::bound_id(uuid, material), ..*self }),
            final(state)@ == old(state)@.bind(uuid, material),
            old(state)@.wf() ==> final(state)@.wf(),
    {
        let material_id = state.bind(uuid, material);
        Draw { context: self.context, material: material_id, window: self.window }
    }

    /// The default material that this handle draws with.
    fn default_material(&self, state: &State) -> (result: Result<DefaultMaterial, MaterialError>)
        ensures
            result == spec_default_material_of(state@, self.material),
    {
        match state.get_typed(self.material) {
            Ok(Material::Default(material)) => Ok(*material),
            Ok(Material::Custom(_)) => Err(MaterialError::TypeMismatch),
            Err(error) => Err(error),
        }
    }

    /// Produce a new handle that will draw with the given color blend
    /// descriptor: its material is this handle's with the descriptor as its
    /// blend for colour and for alpha, bound under a random instance number.
    ///
    /// Fails, and changes nothing, where this handle has no default
    /// material bound.
    pub fn color_blend(&self, state: &mut State, blend_descriptor: BlendComponent) -> (result:
        Result<Draw, MaterialError>)
        ensures
            match result {
                Ok(draw) => {
                    &&& spec_default_material_of(old(state)@, self.material) is Ok
                    &&& draw == self.spec_rebound(
                        draw.material.uuid,
                        spec_blended(
                            spec_default_material_of(old(state)@, self.material).unwrap(),
                            blend_descriptor,
                        ),
                    )
                    &&& final(state)@ == old(state)@.bind(
                        draw.material.uuid,
                        spec_blended(
                            spec_default_material_of(old(state)@, self.material).unwrap(),
                            blend_descriptor,
                        ),
                    )
                },
                Err(error) => {
                    &&& spec_default_material_of(old(state)@, self.material) == Err::<
                        DefaultMaterial,
                        MaterialError,
                    >(error)
                    &&& final(state)@ == old(state)@
                },
            },
            old(state)@.wf() ==> final(state)@.wf(),
    {
        match self.default_material(state) {
            Ok(material) => {
                let mut mat = material;
                mat.blend = Some(BlendState { color: blend_descriptor, alpha: blend_descriptor });
                Ok(self.material(state, Material::Default(mat)))
            },
            Err(error) => Err(error),
        }
    }

    /// This handle with `material` bound under `uuid` as its material.
    pub open spec fn spec_rebound(self, uuid: u128, material: Material) -> Draw {
        Draw { material: StateView::bound_id(uuid, material), ..self }
    }

    /// Short-hand for `color_blend`, the common use-case.
    pub fn blend(&self, state: &mut State, blend_descriptor: BlendComponent) -> (result: Result<
        Draw,
        MaterialError,
    >)
        ensures
            match result {
                Ok(draw) => {
                    &&& spec_default_material_of(old(state)@, self.material) is Ok
                    &&& draw == self.spec_rebound(
                        draw.material.uuid,
                        spec_blended(
                            spec_default_material_of(old(state)@, self.material).unwrap(),
                            blend_descriptor,
                        ),
                    )
                    &&& final(state)@ == old(state)@.bind(
                        draw.material.uuid,
                        spec_blended(
                            spec_default_material_of(old(state)@, self.material).unwrap(),
                            blend_descriptor,
                        ),
                    )
                },
                Err(error) => {
                    &&& spec_default_material_of(old(state)@, self.material) == Err::<
                        DefaultMaterial,
                        MaterialError,
                    >(error)
                    &&& final(state)@ == old(state)@
                },
            },
            old(state)@.wf() ==> final(state)@.wf(),
    {
        self.color_blend(state, blend_descriptor)
    }

    /// Produce a new handle that will use the given polygon mode: its
    /// material is this handle's with that mode, bound under a random
    /// instance number.
    ///
    /// Fails, and changes nothing, where this handle has no default
    /// material bound.
    pub fn polygon_mode(&self, state: &mut State, polygon_mode: PolygonMode) -> (result: Result<
        Draw,
        MaterialError,
    >)
        ensures
            match result {
                Ok(draw) => {
                    &&& spec_default_material_of(old(state)@, self.material) is Ok
                    &&& draw == self.spec_rebound(
                        draw.material.uuid,
                        spec_with_polygon_mode(
                            spec_default_material_of(old(state)@, self.material).unwrap(),
                            polygon_mode,
                        ),
                    )
                    &&& final(state)@ == old(state)@.bind(
                        draw.material.uuid,
                        spec_with_polygon_mode(
                            spec_default_material_of(old(state)@, self.material).unwrap(),
                            polygon_mode,
                        ),
                    )
                },
                Err(error) => {
                    &&& spec_default_material_of(old(state)@, self.material) == Err::<
                        DefaultMaterial,
                        MaterialError,
                    >(error)
                    &&& final(state)@ == old(state)@
                },
            },
            old(state)@.wf() ==> final(state)@.wf(),
    {
        match self.default_material(state) {
            Ok(material) => {
                let mut mat = material;
                mat.polygon_mode = polygon_mode;
                Ok(self.material(state, Material::Default(mat)))
            },
            Err(error) => Err(error),
        }
    }

    // Primitives.

    /// Specify a color with which the background should be cleared.
    pub fn background(&self) -> Background {
        crate::background::new()
    }

    /// Draw an instanced drawing.
    pub fn instanced(&self) -> (instanced: Instanced)
        ensures
            instanced.spec_primitive_index() is None,
    {
        crate::instanced::new()
    }

    /// Draw with arguments that the device reads from a buffer.
    pub fn indirect(&self) -> (indirect: Indirect)
        ensures
            indirect@ == (IndirectView {
                primitive_index: None,
                indirect_buffer: None,
                vertex_buffer: None,
            }),
    {
        crate::indirect::new()
    }

    /// Add the given primitive to be drawn. The drawing that comes back is
    /// of the primitive's own kind.
    ///
    /// In one step the change commands that are due for this handle's
    /// context and material are emitted, the next slot of the log is
    /// reserved and the primitive is put in progress there.
    pub fn a<T: Kind>(&self, state: &mut State, primitive: T) -> (drawing: Drawing<T>)
        requires
            old(state)@.wf(),
        ensures
            final(state)@ == old(state)@.reserve(
                self.context,
                self.material,
                primitive.spec_primitive(),
            ),
            drawing.spec_index() == old(state)@.next_slot(self.context, self.material),
            final(state)@.wf(),
    {
        let index = state.reserve(self.context, self.material, primitive.into_primitive());
        Drawing::new(index)
    }

    /// Begin drawing a **Path**.
    pub fn path(&self, state: &mut State) -> (drawing: Drawing<PathInit>)
        requires
            old(state)@.wf(),
        ensures
            final(state)@ == old(state)@.reserve(self.context, self.material, Primitive::spec_path()),
            drawing.spec_index() == old(state)@.next_slot(self.context, self.material),
            final(state)@.wf(),
    {
        self.a(state, PathInit::default())
    }

    /// Begin drawing an **Ellipse**.
    pub fn ellipse(&self, state: &mut State) -> (drawing: Drawing<Ellipse>)
        requires
            old(state)@.wf(),
        ensures
            final(state)@ == old(state)@.reserve(
                self.context,
                self.material,
                Primitive::spec_ellipse(),
            ),
            drawing.spec_index() == old(state)@.next_slot(self.context, self.material),
            final(state)@.wf(),
    {
        self.a(state, Ellipse::default())
    }

    /// Begin drawing a **Line**.
    pub fn line(&self, state: &mut State) -> (drawing: Drawing<Line>)
        requires
            old(state)@.wf(),
        ensures
            final(state)@ == old(state)@.reserve(self.context, self.material, Primitive::spec_line()),
            drawing.spec_index() == old(state)@.next_slot(self.context, self.material),
            final(state)@.wf(),
    {
        self.a(state, Line::default())
    }

    /// Begin drawing an **Arrow**.
    pub fn arrow(&self, state: &mut State) -> (drawing: Drawing<Arrow>)
        requires
            old(state)@.wf(),
        ensures
            final(state)@ == old(state)@.reserve(
                self.context,
                self.material,
                Primitive::spec_arrow(),
            ),
            drawing.spec_index() == old(state)@.next_slot(self.context, self.material),
            final(state)@.wf(),
    {
        self.a(state, Arrow::default())
    }

    /// Begin drawing a **Quad**.
    pub fn quad(&self, state: &mut State) -> (drawing: Drawing<Quad>)
        requires
            old(state)@.wf(),
        ensures
            final(state)@ == old(state)@.reserve(self.context, self.material, Primitive::spec_quad()),
            drawing.spec_index() == old(state)@.next_slot(self.context, self.material),
            final(state)@.wf(),
    {
        self.a(state, Quad::default())
    }

    /// Begin drawing a **Rect**.
    pub fn rect(&self, state: &mut State) -> (drawing: Drawing<Rect>)
        requires
            old(state)@.wf(),
        ensures
            final(state)@ == old(state)@.reserve(self.context, self.material, Primitive::spec_rect()),
            drawing.spec_index() == old(state)@.next_slot(self.context, self.material),
            final(state)@.wf(),
    {
        self.a(state, Rect::default())
    }

    /// Begin drawing a **Triangle**.
    pub fn tri(&self, state: &mut State) -> (drawing: Drawing<Tri>)
        requires
            old(state)@.wf(),
        ensures
            final(state)@ == old(state)@.reserve(self.context, self.material, Primitive::spec_tri()),
            drawing.spec_index() == old(state)@.next_slot(self.context, self.material),
            final(state)@.wf(),
    {
        self.a(state, Tri::default())
    }

    /// Begin drawing a **Polygon**.
    pub fn polygon(&self, state: &mut State) -> (drawing: Drawing<PolygonInit>)
        requires
            old(state)@.wf(),
        ensures
            final(state)@ == old(state)@.reserve(
                self.context,
                self.material,
                Primitive::spec_polygon(),
            ),
            drawing.spec_index() == old(state)@.next_slot(self.context, self.material),
            final(state)@.wf(),
    {
        self.a(state, PolygonInit::default())
    }

    /// Begin drawing a **Mesh**.
    pub fn mesh(&self, state: &mut State) -> (drawing: Drawing<Vertexless>)
        requires
            old(state)@.wf(),
        ensures
            final(state)@ == old(state)@.reserve(self.context, self.material, Primitive::spec_mesh()),
            drawing.spec_index() == old(state)@.next_slot(self.context, self.material),
            final(state)@.wf(),
    {
        self.a(state, Vertexless::default())
    }

    /// Begin drawing a **Polyline**: a path that is stroked.
    pub fn polyline(&self, state: &mut State) -> (drawing: Drawing<PathStroke>)
        requires
            old(state)@.wf(),
        ensures
            final(state)@ == old(state)@.reserve(
                self.context,
                self.material,
                Primitive::spec_polyline(),
            ),
            drawing.spec_index() == old(state)@.next_slot(self.context, self.material),
            final(state)@.wf(),
    {
        self.a(state, PathStroke::default())
    }

    /// Begin drawing a **Text**: `s` is appended to the session's text
    /// buffer, and the primitive holds the range that it stands in.
    pub fn text(&self, state: &mut State, s: &str) -> (drawing: Drawing<Text>)
        requires
            old(state)@.wf(),
        ensures
            final(state)@ == old(state)@.with_text(s.spec_bytes()).reserve(
                self.context,
                self.material,
                Primitive::spec_text(
                    old(state)@.scratch.text.len() as usize,
                    (old(state)@.scratch.text.len() + s.spec_bytes().len()) as usize,
                ),
            ),
            drawing.spec_index() == old(state)@.next_slot(self.context, self.material),
            final(state)@.wf(),
    {
        let (start, end) = state.push_text(s);
        self.a(state, Text::new(start, end))
    }

    /// Begin drawing a **Texture** of the given size in pixels.
    pub fn texture(&self, state: &mut State, texture_handle: u128, size: (u32, u32)) -> (drawing:
        Drawing<Texture>)
        requires
            old(state)@.wf(),
        ensures
            final(state)@ == old(state)@.reserve(
                self.context,
                self.material,
                Primitive::spec_texture(texture_handle, size.0, size.1),
            ),
            drawing.spec_index() == old(state)@.next_slot(self.context, self.material),
            final(state)@.wf(),
    {
        self.a(state, Texture::new(texture_handle, size.0, size.1))
    }

    /// Finish any drawings-in-progress and hand out the frame's commands,
    /// in the order in which their positions were reserved. The session is
    /// left with an empty log and nothing in progress.
    ///
    /// A session whose log is empty yields an empty sequence. Else the log
    /// is closed with the change to this handle's material, where that is
    /// not the material remembered.
    pub fn drain_commands(&self, state: &mut State) -> (commands: Vec<DrawCommand>)
        requires
            old(state)@.wf(),
        ensures
            commands@ == old(state)@.drained(self.material),
            final(state)@ == old(state)@.after_drain(self.material),
            final(state)@.wf(),
    {
        state.drain(self.material)
    }

    /// Finish any remaining drawings and turn them into draw commands,
    /// after the material change that is due for this handle.
    pub fn finish_remaining_drawings(&self, state: &mut State)
        requires
            old(state)@.wf(),
        ensures
            final(state)@ == old(state)@.with_material(self.material).finish_all(),
            final(state)@.wf(),
    {
        state.note_material(self.material);
        state.finish_remaining_drawings();
    }
}

} // verus!
