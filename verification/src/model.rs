//! The mathematical model of a session: what its log and tables hold, and
//! what each operation makes of them.

use vstd::prelude::*;
use crate::command::DrawCommand;
use crate::context::{spec_identity, DrawContext};
use crate::material::{Material, MaterialError, MaterialId};
use crate::primitive::Primitive;
use crate::scratch::ScratchView;
use crate::theme::{spec_default_theme, Theme};
use crate::value::{BufferHandle, Color};

verus! {

/// The command log: one entry per position, `None` where a slot is reserved
/// and its primitive is still in progress.
pub type Log = Seq<Option<DrawCommand>>;

/// The contexts of the context-change commands of a log, in order.
pub open spec fn context_changes(log: Log) -> Seq<DrawContext>
    decreases log.len(),
{
    if log.len() == 0 {
        Seq::empty()
    } else {
        let before = context_changes(log.drop_last());
        match log.last() {
            Some(DrawCommand::Context(context)) => before.push(context),
            _ => before,
        }
    }
}

/// The ids of the material-change commands of a log, in order.
pub open spec fn material_changes(log: Log) -> Seq<MaterialId>
    decreases log.len(),
{
    if log.len() == 0 {
        Seq::empty()
    } else {
        let before = material_changes(log.drop_last());
        match log.last() {
            Some(DrawCommand::Material(id)) => before.push(id),
            _ => before,
        }
    }
}

/// No entry equals the one before it.
pub open spec fn no_repeat<T>(values: Seq<T>) -> bool {
    forall|i: int| 0 < i < values.len() ==> values[i - 1] != #[trigger] values[i]
}

/// The last value of a sequence is `last`, if the sequence has one.
pub open spec fn ends_with<T>(values: Seq<T>, last: Option<T>) -> bool {
    values.len() > 0 ==> last == Some(values.last())
}

/// How many slots of a log belong to primitives: those still reserved and
/// those that hold a command that draws one.
pub open spec fn count_started(log: Log) -> nat
    decreases log.len(),
{
    if log.len() == 0 {
        0
    } else {
        let before = count_started(log.drop_last());
        match log.last() {
            None => before + 1,
            Some(command) => if command.spec_is_terminal() {
                before + 1
            } else {
                before
            },
        }
    }
}

/// How many commands of a sequence draw a primitive.
pub open spec fn count_terminals(commands: Seq<DrawCommand>) -> nat
    decreases commands.len(),
{
    if commands.len() == 0 {
        0
    } else {
        let before = count_terminals(commands.drop_last());
        if commands.last().spec_is_terminal() {
            before + 1
        } else {
            before
        }
    }
}

/// What a session holds.
pub struct StateView {
    /// The command log.
    pub commands: Log,
    /// The primitives in progress, by slot.
    pub drawing: Map<usize, Primitive>,
    /// The slots captured for instancing, each with its instance buffer.
    pub instanced: Map<usize, BufferHandle>,
    /// The bound materials, by id.
    pub materials: Map<MaterialId, Material>,
    /// The material of the last material-change command.
    pub last_material: Option<MaterialId>,
    /// The context of the last context-change command.
    pub last_context: Option<DrawContext>,
    /// The pending request to clear the frame.
    pub background_color: Option<Color>,
    /// The buffers that primitives assemble their geometry in.
    pub scratch: ScratchView,
    /// The default values of the session.
    pub theme: Theme,
}

impl StateView {
    /// A session that holds nothing. It counts the identity context as the
    /// one last emitted, which is what a renderer starts a frame under, and
    /// no material.
    pub open spec fn empty() -> StateView {
        StateView {
            commands: Seq::empty(),
            drawing: Map::empty(),
            instanced: Map::empty(),
            materials: Map::empty(),
            last_material: None,
            last_context: Some(DrawContext { transform: spec_identity() }),
            background_color: None,
            scratch: ScratchView::empty(),
            theme: spec_default_theme(),
        }
    }

    /// A session that holds nothing but its theme and remembers neither a
    /// context nor a material: the first primitive drawn into it emits both
    /// change commands.
    pub open spec fn cleared(theme: Theme) -> StateView {
        StateView { theme, last_context: None, ..StateView::empty() }
    }

    /// The log is no longer than a machine can hold;
    /// every reserved position of the log has its primitive in progress and
    /// every primitive in progress has its reserved position; only slots in
    /// progress are captured for instancing; and each change command of the
    /// log differs from the change command of its kind before it, the last
    /// of each kind being the one remembered.
    pub open spec fn wf(self) -> bool {
        &&& self.commands.len() <= usize::MAX
        &&& forall|slot: usize| #[trigger]
            self.drawing.contains_key(slot) ==> slot < self.commands.len()
                && self.commands[slot as int] is None
        &&& forall|i: int|
            0 <= i < self.commands.len() && (#[trigger] self.commands[i]) is None
                ==> self.drawing.contains_key(i as usize)
        &&& forall|slot: usize| #[trigger]
            self.instanced.contains_key(slot) ==> self.drawing.contains_key(slot)
        &&& no_repeat(context_changes(self.commands))
        &&& no_repeat(material_changes(self.commands))
        &&& ends_with(context_changes(self.commands), self.last_context)
        &&& ends_with(material_changes(self.commands), self.last_material)
    }

    /// The session once a handle under `context` is about to draw: a
    /// context-change command is appended if and only if `context` is not
    /// the one remembered.
    pub open spec fn with_context(self, context: DrawContext) -> StateView {
        if self.last_context == Some(context) {
            self
        } else {
            StateView {
                commands: self.commands.push(Some(DrawCommand::Context(context))),
                last_context: Some(context),
                ..self
            }
        }
    }

    /// The session once a handle with material `id` is about to draw: a
    /// material-change command is appended if and only if `id` is not the
    /// one remembered.
    pub open spec fn with_material(self, id: MaterialId) -> StateView {
        if self.last_material == Some(id) {
            self
        } else {
            StateView {
                commands: self.commands.push(Some(DrawCommand::Material(id))),
                last_material: Some(id),
                ..self
            }
        }
    }

    /// The slot that the next primitive drawn under `context` and `id` gets.
    pub open spec fn next_slot(self, context: DrawContext, id: MaterialId) -> nat {
        self.with_context(context).with_material(id).commands.len()
    }

    /// The session after a primitive was started under `context` and `id`.
    pub open spec fn reserve(
        self,
        context: DrawContext,
        id: MaterialId,
        primitive: Primitive,
    ) -> StateView {
        let ready = self.with_context(context).with_material(id);
        StateView {
            commands: ready.commands.push(None),
            drawing: ready.drawing.insert(ready.commands.len() as usize, primitive),
            ..ready
        }
    }

    /// The command that the primitive in progress at `slot` ends as.
    pub open spec fn terminal(self, slot: usize) -> DrawCommand {
        if self.instanced.contains_key(slot) {
            DrawCommand::Instanced(self.drawing[slot], self.instanced[slot])
        } else {
            DrawCommand::Primitive(self.drawing[slot])
        }
    }

    /// Whether a plain finish of `slot` commits its primitive.
    pub open spec fn commits(self, slot: usize) -> bool {
        self.drawing.contains_key(slot) && !self.instanced.contains_key(slot)
    }

    /// The session after `slot` was filled with `command` and left the
    /// tables.
    pub open spec fn fill(self, slot: usize, command: DrawCommand) -> StateView {
        StateView {
            commands: self.commands.update(slot as int, Some(command)),
            drawing: self.drawing.remove(slot),
            instanced: self.instanced.remove(slot),
            ..self
        }
    }

    /// The session after a plain finish of `slot`: the primitive is
    /// committed where `commits` holds, and nothing changes where it does
    /// not.
    pub open spec fn finish(self, slot: usize) -> StateView {
        if self.commits(slot) {
            self.fill(slot, DrawCommand::Primitive(self.drawing[slot]))
        } else {
            self
        }
    }

    /// The command at position `i` once every primitive in progress is
    /// finished.
    pub open spec fn resolved(self, i: int) -> DrawCommand {
        match self.commands[i] {
            Some(command) => command,
            None => self.terminal(i as usize),
        }
    }

    /// The log once every primitive in progress is finished.
    pub open spec fn resolved_commands(self) -> Seq<DrawCommand> {
        Seq::new(self.commands.len(), |i: int| self.resolved(i))
    }

    /// The session after every primitive in progress was finished.
    pub open spec fn finish_all(self) -> StateView {
        StateView {
            commands: Seq::new(self.commands.len(), |i: int| Some(self.resolved(i))),
            drawing: Map::empty(),
            instanced: Map::empty(),
            ..self
        }
    }

    /// What a handle with material `id` drains from the session.
    ///
    /// An empty log drains to nothing. A log that holds anything is closed
    /// with the material change that is due for the handle, and every
    /// reserved position is resolved.
    pub open spec fn drained(self, id: MaterialId) -> Seq<DrawCommand> {
        if self.commands.len() == 0 {
            Seq::empty()
        } else {
            self.with_material(id).resolved_commands()
        }
    }

    /// The session after a handle with material `id` drained it: the log and
    /// the tables of drawings are empty, and the handle's material is the
    /// one remembered where the log held anything.
    pub open spec fn after_drain(self, id: MaterialId) -> StateView {
        StateView {
            commands: Seq::empty(),
            drawing: Map::empty(),
            instanced: Map::empty(),
            last_material: if self.commands.len() == 0 {
                self.last_material
            } else {
                Some(id)
            },
            ..self
        }
    }

    /// The id under which `value` is bound when its instance number is
    /// `uuid`.
    pub open spec fn bound_id(uuid: u128, value: Material) -> MaterialId {
        MaterialId { type_tag: value.spec_type_tag(), uuid }
    }

    /// The session after `value` was stored under `id`.
    pub open spec fn store(self, id: MaterialId, value: Material) -> StateView {
        StateView { materials: self.materials.insert(id, value), ..self }
    }

    /// The session after `value` was bound under the instance number
    /// `uuid`: it is stored under the id made of its shape and that number.
    pub open spec fn bind(self, uuid: u128, value: Material) -> StateView {
        self.store(StateView::bound_id(uuid, value), value)
    }

    /// The material bound under `id`, or why there is none to hand out.
    pub open spec fn typed(self, id: MaterialId) -> Result<Material, MaterialError> {
        if !self.materials.contains_key(id) {
            Err(MaterialError::Unknown)
        } else if self.materials[id].spec_type_tag() != id.type_tag {
            Err(MaterialError::TypeMismatch)
        } else {
            Ok(self.materials[id])
        }
    }

    /// The session after the frame was asked to be cleared with `color`.
    pub open spec fn with_background(self, color: Color) -> StateView {
        StateView {
            commands: self.commands.push(Some(DrawCommand::BackgroundColor(color))),
            background_color: Some(color),
            ..self
        }
    }

    /// The session after `text` was appended to the text buffer.
    pub open spec fn with_text(self, text: Seq<u8>) -> StateView {
        StateView { scratch: ScratchView { text: self.scratch.text + text, ..self.scratch }, ..self }
    }

    /// The session after the primitive in progress at `slot` was replaced by
    /// `primitive`; nothing changes where no primitive is in progress there.
    pub open spec fn replace(self, slot: usize, primitive: Primitive) -> StateView {
        if self.drawing.contains_key(slot) {
            StateView { drawing: self.drawing.insert(slot, primitive), ..self }
        } else {
            self
        }
    }

    /// Whether `slot` can be captured by an extension: its primitive is in
    /// progress and no extension has captured it.
    pub open spec fn capturable(self, slot: usize) -> bool {
        self.commits(slot)
    }

    /// The session after `slot` was captured for instancing over `buffer`;
    /// nothing changes where the slot cannot be captured.
    pub open spec fn capture_instanced(self, slot: usize, buffer: BufferHandle) -> StateView {
        if self.capturable(slot) {
            StateView { instanced: self.instanced.insert(slot, buffer), ..self }
        } else {
            self
        }
    }

    /// The session after the instanced draw of `slot` was committed; nothing
    /// changes where the slot is not captured for instancing.
    pub open spec fn finish_instanced(self, slot: usize) -> StateView {
        if self.instanced.contains_key(slot) {
            self.fill(slot, self.terminal(slot))
        } else {
            self
        }
    }

    /// The session after the indirect draw of `slot` was committed with the
    /// given buffers; nothing changes where the slot cannot be captured.
    pub open spec fn finish_indirect(
        self,
        slot: usize,
        arguments: BufferHandle,
        vertices: Option<BufferHandle>,
    ) -> StateView {
        if self.capturable(slot) {
            self.fill(slot, DrawCommand::Indirect(self.drawing[slot], arguments, vertices))
        } else {
            self
        }
    }
}

} // verus!
