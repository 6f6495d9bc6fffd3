//! The session: the one mutable record that all handles draw into.

use vstd::prelude::*;
use vstd::string::StringSliceAdditionalSpecFns;
use crate::command::{DrawCommand, DrawError};
use crate::context::DrawContext;
use crate::lemmas::{lemma_fill_wf, lemma_finish_all_wf, lemma_push};
use crate::material::{
    material_table_clear, material_table_contents, material_table_get, material_table_get_mut,
    material_table_insert,
    material_table_new, Material, MaterialError, MaterialId, MaterialKey, MaterialTable,
};
use crate::model::StateView;
use crate::primitive::Primitive;
use crate::scratch::IntermediaryState;
use crate::theme::Theme;
use crate::table::{
    instance_table_clear, instance_table_contains, instance_table_contents,
    instance_table_insert, instance_table_new, instance_table_remove, primitive_table_clear,
    primitive_table_contents, primitive_table_get, primitive_table_insert, primitive_table_new,
    primitive_table_remove, InstanceTable, PrimitiveTable,
};
use crate::value::{BufferHandle, Color};

verus! {

/// The inner state of a drawing session.
///
/// Handles are small values; everything they record goes into one `State`,
/// which the caller owns and lends to each call.
pub struct State {
    /// The last material used to draw, used to detect changes and emit
    /// commands for them.
    last_material: Option<MaterialId>,
    /// The last context used to draw, used to detect changes and emit
    /// commands for them.
    last_draw_context: Option<DrawContext>,
    /// If `Some`, the frame should first be cleared with the given color.
    background_color: Option<Color>,
    /// Primitives that are in the process of being drawn.
    ///
    /// Keys are indices into `draw_commands`.
    drawing: PrimitiveTable,
    /// All materials used by the session.
    materials: MaterialTable,
    /// The slots of primitives that are drawn as instances and must not be
    /// committed as plain primitives.
    instanced: InstanceTable,
    /// The list of recorded draw commands.
    ///
    /// An element is `None` if it is a primitive in the process of being
    /// drawn.
    draw_commands: Vec<Option<DrawCommand>>,
    /// State made accessible to primitives while they are drawn.
    intermediary_state: IntermediaryState,
    /// The theme containing default values.
    theme: Theme,
}

/// The bound materials by id, given what the table holds under the numbers
/// of the ids.
pub open spec fn spec_materials(held: Map<MaterialKey, Material>) -> Map<MaterialId, Material> {
    Map::new(
        |id: MaterialId| held.contains_key(id.spec_key()),
        |id: MaterialId| held[id.spec_key()],
    )
}

/// Storing a value under the numbers of an id changes the bound materials
/// under that id and under no other.
pub proof fn lemma_materials_insert(held: Map<MaterialKey, Material>, id: MaterialId)
    ensures
        forall|value: Material| #[trigger]
            spec_materials(held.insert(id.spec_key(), value)) == spec_materials(held).insert(
                id,
                value,
            ),
{
    assert forall|value: Material| #[trigger]
        spec_materials(held.insert(id.spec_key(), value)) == spec_materials(held).insert(
            id,
            value,
        ) by {
        assert(spec_materials(held.insert(id.spec_key(), value)) =~= spec_materials(held).insert(
            id,
            value,
        ));
    }
}

impl View for State {
    type V = StateView;

    closed spec fn view(&self) -> StateView {
        StateView {
            commands: self.draw_commands@,
            drawing: primitive_table_contents(self.drawing),
            instanced: instance_table_contents(self.instanced),
            materials: spec_materials(material_table_contents(self.materials)),
            last_material: self.last_material,
            last_context: self.last_draw_context,
            background_color: self.background_color,
            scratch: self.intermediary_state@,
            theme: self.theme,
        }
    }
}

impl Default for State {
    fn default() -> (state: State)
        ensures
            state@ == StateView::empty(),
            state@.wf(),
    {
        let state = State {
            last_material: None,
            last_draw_context: Some(DrawContext::default()),
            background_color: None,
            drawing: primitive_table_new(),
            materials: material_table_new(),
            instanced: instance_table_new(),
            draw_commands: Vec::new(),
            intermediary_state: IntermediaryState::default(),
            theme: Theme::default(),
        };
        proof {
            assert(state@.drawing =~= Map::empty());
            assert(state@.instanced =~= Map::empty());
            assert(state@.materials =~= Map::empty());
        }
        state
    }
}

impl State {
    /// Appends a context-change command if `context` is not the one last
    /// emitted.
    fn note_context(&mut self, context: DrawContext)
        requires
            old(self)@.wf(),
        ensures
            final(self)@ == old(self)@.with_context(context),
            final(self)@.wf(),
    {
        let changed = match self.last_draw_context {
            Some(last) => last != context,
            None => true,
        };
        if changed {
            proof {
                lemma_push(self.draw_commands@, Some(DrawCommand::Context(context)));
            }
            self.draw_commands.push(Some(DrawCommand::Context(context)));
            self.last_draw_context = Some(context);
            proof {
                assert(self.draw_commands.len() == self.draw_commands@.len());
            }
        }
    }

    /// Appends a material-change command if `id` is not the one last
    /// emitted.
    pub fn note_material(&mut self, id: MaterialId)
        requires
            old(self)@.wf(),
        ensures
            final(self)@ == old(self)@.with_material(id),
            final(self)@.wf(),
    {
        let changed = match self.last_material {
            Some(last) => last != id,
            None => true,
        };
        if changed {
            proof {
                lemma_push(self.draw_commands@, Some(DrawCommand::Material(id)));
            }
            self.draw_commands.push(Some(DrawCommand::Material(id)));
            self.last_material = Some(id);
            proof {
                assert(self.draw_commands.len() == self.draw_commands@.len());
            }
        }
    }

    /// Starts a primitive for a handle under `context` with material `id`:
    /// emits the change commands that are due, reserves the next slot and
    /// puts `primitive` in progress there. Returns the slot.
    pub fn reserve(&mut self, context: DrawContext, id: MaterialId, primitive: Primitive) -> (slot:
        usize)
        requires
            old(self)@.wf(),
        ensures
            final(self)@ == old(self)@.reserve(context, id, primitive),
            slot == old(self)@.next_slot(context, id),
            final(self)@.wf(),
    {
        self.note_context(context);
        self.note_material(id);
        let slot: usize = self.draw_commands.len();
        proof {
            lemma_push(self.draw_commands@, None);
        }
        self.draw_commands.push(None);
        proof {
            assert(self.draw_commands.len() == self.draw_commands@.len());
        }
        primitive_table_insert(&mut self.drawing, slot, primitive);
        slot
    }

    /// Finishes the drawing at `slot` if it is not yet complete.
    ///
    /// A primitive in progress is committed to its slot. A slot captured for
    /// instancing is left alone: its own command is still to come. A slot
    /// that holds no primitive in progress is refused.
    pub fn finish_drawing(&mut self, slot: usize) -> (result: Result<(), DrawError>)
        requires
            old(self)@.wf(),
        ensures
            final(self)@ == old(self)@.finish(slot),
            final(self)@.wf(),
            result is Ok <==> old(self)@.drawing.contains_key(slot),
            result is Err ==> result == Err::<(), DrawError>(DrawError::AlreadyFinalized),
    {
        // Don't draw if the primitive is going to be instanced.
        if instance_table_contains(&self.instanced, slot) {
            return Ok(());
        }
        match primitive_table_remove(&mut self.drawing, slot) {
            Some(primitive) => {
                let command = DrawCommand::Primitive(primitive);
                self.insert_draw_command(slot, command);
                proof {
                    assert(self@.instanced =~= old(self)@.instanced.remove(slot));
                    lemma_fill_wf(old(self)@, slot, command);
                }
                Ok(())
            },
            None => {
                proof {
                    assert(self@.drawing =~= old(self)@.drawing);
                }
                Err(DrawError::AlreadyFinalized)
            },
        }
    }

    /// Writes `command` into position `slot` of the log.
    fn insert_draw_command(&mut self, slot: usize, command: DrawCommand)
        requires
            slot < old(self)@.commands.len(),
        ensures
            final(self)@ == (StateView {
                commands: old(self)@.commands.update(slot as int, Some(command)),
                ..old(self)@
            }),
    {
        self.draw_commands.set(slot, Some(command));
    }

    /// Finishes every drawing in progress, in the order of the slots: each
    /// becomes the command it ends as, an instanced draw where the slot was
    /// captured for instancing and a plain one where it was not.
    pub fn finish_remaining_drawings(&mut self)
        requires
            old(self)@.wf(),
        ensures
            final(self)@ == old(self)@.finish_all(),
            final(self)@.wf(),
    {
        let len: usize = self.draw_commands.len();
        let mut i: usize = 0;
        while i < len
            invariant
                old(self)@.wf(),
                i <= len,
                len == old(self)@.commands.len(),
                self@.commands.len() == len,
                forall|j: int| 0 <= j < i ==> #[trigger] self@.commands[j] == Some(old(self)@.resolved(j)),
                forall|j: int| i <= j < len ==> #[trigger] self@.commands[j] == old(self)@.commands[j],
                forall|k: usize| #[trigger]
                    self@.drawing.contains_key(k) <==> old(self)@.drawing.contains_key(k) && k >= i,
                forall|k: usize| #[trigger]
                    self@.drawing.contains_key(k) ==> self@.drawing[k] == old(self)@.drawing[k],
                forall|k: usize| #[trigger]
                    self@.instanced.contains_key(k) <==> old(self)@.instanced.contains_key(k) && k >= i,
                forall|k: usize| #[trigger]
                    self@.instanced.contains_key(k) ==> self@.instanced[k] == old(self)@.instanced[k],
                self@.materials == old(self)@.materials,
                self@.last_material == old(self)@.last_material,
                self@.last_context == old(self)@.last_context,
                self@.background_color == old(self)@.background_color,
                self@.scratch == old(self)@.scratch,
                self@.theme == old(self)@.theme,
            decreases len - i,
        {
            if self.draw_commands[i].is_none() {
                let ghost before = self@;
                proof {
                    assert(before.commands[i as int] == old(self)@.commands[i as int]);
                    assert(old(self)@.drawing.contains_key(i));
                    assert(before.drawing.contains_key(i));
                    assert(before.instanced.contains_key(i) <==> old(self)@.instanced.contains_key(i));
                }
                let removed = primitive_table_remove(&mut self.drawing, i);
                let captured = instance_table_remove(&mut self.instanced, i);
                let primitive = removed.unwrap();
                let command = match captured {
                    Some(buffer) => DrawCommand::Instanced(primitive, buffer),
                    None => DrawCommand::Primitive(primitive),
                };
                assert(command == old(self)@.terminal(i));
                self.insert_draw_command(i, command);
            }
            i += 1;
        }
        proof {
            assert(self@.commands =~= old(self)@.finish_all().commands);
            assert(self@.drawing =~= Map::empty());
            assert(self@.instanced =~= Map::empty());
            lemma_finish_all_wf(old(self)@);
        }
    }

    /// Takes the log out of a session that has no drawing in progress and
    /// leaves an empty log behind.
    fn take_commands(&mut self) -> (commands: Vec<DrawCommand>)
        requires
            forall|i: int| 0 <= i < old(self)@.commands.len() ==> old(self)@.commands[i] is Some,
        ensures
            commands@.len() == old(self)@.commands.len(),
            forall|i: int| 0 <= i < commands@.len() ==> Some(#[trigger] commands@[i]) == old(self)@.commands[i],
            final(self)@ == (StateView { commands: Seq::empty(), ..old(self)@ }),
    {
        let len: usize = self.draw_commands.len();
        let mut commands: Vec<DrawCommand> = Vec::with_capacity(len);
        let mut i: usize = 0;
        while i < len
            invariant
                i <= len,
                len == self@.commands.len(),
                self@ == old(self)@,
                commands@.len() == i,
                forall|j: int| 0 <= j < len ==> self@.commands[j] is Some,
                forall|j: int| 0 <= j < i ==> Some(#[trigger] commands@[j]) == self@.commands[j],
            decreases len - i,
        {
            match self.draw_commands[i] {
                Some(command) => {
                    commands.push(command);
                },
                None => {},
            }
            i += 1;
        }
        self.draw_commands = Vec::with_capacity(len);
        commands
    }

    /// Hands the frame's commands to the renderer on behalf of a handle with
    /// material `id`. An empty log yields an empty sequence and changes
    /// nothing. Else the material change that is due is emitted, every
    /// drawing in progress is finished, and the log is taken out, leaving
    /// the session ready for the next frame.
    pub fn drain(&mut self, id: MaterialId) -> (commands: Vec<DrawCommand>)
        requires
            old(self)@.wf(),
        ensures
            commands@ == old(self)@.drained(id),
            final(self)@ == old(self)@.after_drain(id),
            final(self)@.wf(),
    {
        if self.draw_commands.len() == 0 {
            proof {
                assert(self@.commands =~= Seq::empty());
                assert(self@.drawing =~= Map::empty());
                assert(self@.instanced =~= Map::empty());
            }
            return Vec::new();
        }
        self.note_material(id);
        self.finish_remaining_drawings();
        let commands = self.take_commands();
        proof {
            assert(commands@ =~= old(self)@.drained(id));
        }
        commands
    }

    /// Resets all state within the session: the log, the tables, the
    /// pending clear request and the buffers are emptied, and neither a
    /// material nor a context is remembered any more. The theme stays.
    pub fn reset(&mut self)
        ensures
            final(self)@ == StateView::cleared(old(self)@.theme),
            final(self)@.wf(),
    {
        self.last_material = None;
        self.last_draw_context = None;
        self.background_color = None;
        primitive_table_clear(&mut self.drawing);
        instance_table_clear(&mut self.instanced);
        material_table_clear(&mut self.materials);
        self.draw_commands.clear();
        self.intermediary_state.reset();
        proof {
            assert(self@.commands =~= Seq::empty());
            assert(self@.drawing =~= Map::empty());
            assert(self@.instanced =~= Map::empty());
            assert(self@.materials =~= Map::empty());
        }
    }

    /// Asks for the frame to be cleared with `color` and records the
    /// request in the log. A later request replaces the pending one.
    pub fn set_background_color(&mut self, color: Color)
        requires
            old(self)@.wf(),
        ensures
            final(self)@ == old(self)@.with_background(color),
            final(self)@.wf(),
    {
        proof {
            lemma_push(self.draw_commands@, Some(DrawCommand::BackgroundColor(color)));
        }
        self.background_color = Some(color);
        self.draw_commands.push(Some(DrawCommand::BackgroundColor(color)));
        proof {
            assert(self.draw_commands.len() == self.draw_commands@.len());
        }
    }

    /// The pending request to clear the frame, if there is one.
    pub fn background_color(&self) -> (color: Option<Color>)
        ensures
            color == self@.background_color,
    {
        self.background_color
    }

    /// Binds `value` under the instance number `uuid` and returns its id,
    /// which is made of the value's shape and that number. A material bound
    /// earlier under the same id is replaced.
    pub fn bind(&mut self, uuid: u128, value: Material) -> (id: MaterialId)
        ensures
            id == StateView::bound_id(uuid, value),
            final(self)@ == old(self)@.bind(uuid, value),
            old(self)@.wf() ==> final(self)@.wf(),
    {
        let id = MaterialId { type_tag: value.type_tag(), uuid };
        proof {
            lemma_materials_insert(material_table_contents(self.materials), id);
        }
        material_table_insert(&mut self.materials, id.key(), value);
        id
    }

    /// The material bound under `id`.
    ///
    /// Fails with `Unknown` where nothing is bound under the id, and with
    /// `TypeMismatch` where what stands there is not of the shape that the
    /// id declares: a material of another shape was written in its place.
    pub fn get_typed(&self, id: MaterialId) -> (result: Result<&Material, MaterialError>)
        ensures
            match result {
                Ok(material) => self@.typed(id) == Ok::<Material, MaterialError>(*material),
                Err(error) => self@.typed(id) == Err::<Material, MaterialError>(error),
            },
    {
        match material_table_get(&self.materials, id.key()) {
            None => Err(MaterialError::Unknown),
            Some(material) => {
                if material.type_tag() != id.type_tag {
                    Err(MaterialError::TypeMismatch)
                } else {
                    Ok(material)
                }
            },
        }
    }

    /// The place of the material bound under `id`, to change it where it
    /// stands. It fails as `get_typed` does, and then changes nothing.
    pub fn get_typed_mut(&mut self, id: MaterialId) -> (result: Result<
        &mut Material,
        MaterialError,
    >)
        ensures
            match result {
                Ok(material) => old(self)@.typed(id) == Ok::<Material, MaterialError>(*material)
                    && final(self)@ == old(self)@.store(id, *final(material)),
                Err(error) => old(self)@.typed(id) == Err::<Material, MaterialError>(error)
                    && final(self)@ == old(self)@,
            },
    {
        let matches = match material_table_get(&self.materials, id.key()) {
            None => {
                return Err(MaterialError::Unknown);
            },
            Some(material) => material.type_tag() == id.type_tag,
        };
        if !matches {
            return Err(MaterialError::TypeMismatch);
        }
        proof {
            lemma_materials_insert(material_table_contents(self.materials), id);
        }
        let found = material_table_get_mut(&mut self.materials, id.key());
        match found {
            Some(material) => Ok(material),
            None => Err(MaterialError::Unknown),
        }
    }

    /// Appends `text` to the session's text buffer and returns the range of
    /// the buffer that holds it.
    pub fn push_text(&mut self, text: &str) -> (range: (usize, usize))
        ensures
            final(self)@ == old(self)@.with_text(text.spec_bytes()),
            range.0 == old(self)@.scratch.text.len(),
            range.1 == old(self)@.scratch.text.len() + text.spec_bytes().len(),
            old(self)@.wf() ==> final(self)@.wf(),
    {
        self.intermediary_state.push_text(text)
    }

    /// The theme containing default values.
    pub fn theme(&self) -> (theme: Theme)
        ensures
            theme == self@.theme,
    {
        self.theme
    }

    /// Replaces the theme.
    pub fn set_theme(&mut self, theme: Theme)
        ensures
            final(self)@ == (StateView { theme, ..old(self)@ }),
            old(self)@.wf() ==> final(self)@.wf(),
    {
        self.theme = theme;
    }

    /// The buffers that primitives assemble their geometry in.
    pub fn intermediary_state(&self) -> (scratch: &IntermediaryState)
        ensures
            scratch@ == self@.scratch,
    {
        &self.intermediary_state
    }

    /// The primitive in progress at `slot`, if there is one.
    pub fn primitive(&self, slot: usize) -> (primitive: Option<Primitive>)
        ensures
            primitive.is_some() == self@.drawing.contains_key(slot),
            primitive.is_some() ==> primitive.unwrap() == self@.drawing[slot],
    {
        match primitive_table_get(&self.drawing, slot) {
            Some(primitive) => Some(*primitive),
            None => None,
        }
    }

    /// Replaces the primitive in progress at `slot`. Fails, and changes
    /// nothing, where no primitive is in progress there.
    pub fn set_primitive(&mut self, slot: usize, primitive: Primitive) -> (result: Result<
        (),
        DrawError,
    >)
        requires
            old(self)@.wf(),
        ensures
            final(self)@ == old(self)@.replace(slot, primitive),
            final(self)@.wf(),
            result is Ok <==> old(self)@.drawing.contains_key(slot),
            result is Err ==> result == Err::<(), DrawError>(DrawError::AlreadyFinalized),
    {
        if primitive_table_get(&self.drawing, slot).is_none() {
            return Err(DrawError::AlreadyFinalized);
        }
        primitive_table_insert(&mut self.drawing, slot, primitive);
        Ok(())
    }

    /// Captures `slot` for instancing over `buffer`: a plain finish will no
    /// longer commit it, and its instanced draw is committed by
    /// `finish_instanced` or when the frame is drained.
    ///
    /// Fails, and changes nothing, with `AlreadyFinalized` where no
    /// primitive is in progress at `slot` and with `CaptureConflict` where
    /// the slot is captured already.
    pub fn capture_instanced(&mut self, slot: usize, buffer: BufferHandle) -> (result: Result<
        (),
        DrawError,
    >)
        requires
            old(self)@.wf(),
        ensures
            final(self)@ == old(self)@.capture_instanced(slot, buffer),
            final(self)@.wf(),
            result == capture_outcome(old(self)@, slot),
    {
        if instance_table_contains(&self.instanced, slot) {
            return Err(DrawError::CaptureConflict);
        }
        if primitive_table_get(&self.drawing, slot).is_none() {
            return Err(DrawError::AlreadyFinalized);
        }
        instance_table_insert(&mut self.instanced, slot, buffer);
        Ok(())
    }

    /// Commits the instanced draw of a slot captured for instancing.
    ///
    /// Fails, and changes nothing, with `AlreadyFinalized` where the slot
    /// is not captured for instancing.
    pub fn finish_instanced(&mut self, slot: usize) -> (result: Result<(), DrawError>)
        requires
            old(self)@.wf(),
        ensures
            final(self)@ == old(self)@.finish_instanced(slot),
            final(self)@.wf(),
            result is Ok <==> old(self)@.instanced.contains_key(slot),
            result is Err ==> result == Err::<(), DrawError>(DrawError::AlreadyFinalized),
    {
        match instance_table_remove(&mut self.instanced, slot) {
            None => {
                proof {
                    assert(self@.instanced =~= old(self)@.instanced);
                }
                Err(DrawError::AlreadyFinalized)
            },
            Some(buffer) => {
                let removed = primitive_table_remove(&mut self.drawing, slot);
                let command = DrawCommand::Instanced(removed.unwrap(), buffer);
                self.insert_draw_command(slot, command);
                proof {
                    lemma_fill_wf(old(self)@, slot, command);
                }
                Ok(())
            },
        }
    }

    /// Commits the primitive in progress at `slot` as an indirect draw with
    /// the given buffer of arguments and, optionally, a buffer of vertices
    /// that replaces the primitive's own.
    ///
    /// Fails, and changes nothing, with `AlreadyFinalized` where no
    /// primitive is in progress at `slot` and with `CaptureConflict` where
    /// the slot is captured for instancing.
    pub fn insert_indirect_draw_command(
        &mut self,
        slot: usize,
        indirect_buffer: BufferHandle,
        vertex_buffer: Option<BufferHandle>,
    ) -> (result: Result<(), DrawError>)
        requires
            old(self)@.wf(),
        ensures
            final(self)@ == old(self)@.finish_indirect(slot, indirect_buffer, vertex_buffer),
            final(self)@.wf(),
            result == capture_outcome(old(self)@, slot),
    {
        if instance_table_contains(&self.instanced, slot) {
            return Err(DrawError::CaptureConflict);
        }
        match primitive_table_remove(&mut self.drawing, slot) {
            None => {
                proof {
                    assert(self@.drawing =~= old(self)@.drawing);
                }
                Err(DrawError::AlreadyFinalized)
            },
            Some(primitive) => {
                let command = DrawCommand::Indirect(primitive, indirect_buffer, vertex_buffer);
                self.insert_draw_command(slot, command);
                proof {
                    assert(self@.instanced =~= old(self)@.instanced.remove(slot));
                    lemma_fill_wf(old(self)@, slot, command);
                }
                Ok(())
            },
        }
    }
}

/// Whether an extension may capture `slot`, and the refusal where it may
/// not.
pub open spec fn capture_outcome(session: StateView, slot: usize) -> Result<(), DrawError> {
    if session.instanced.contains_key(slot) {
        Err(DrawError::CaptureConflict)
    } else if !session.drawing.contains_key(slot) {
        Err(DrawError::AlreadyFinalized)
    } else {
        Ok(())
    }
}

} // verus!
