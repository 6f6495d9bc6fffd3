//! What holds of every session, whatever was drawn into it.

use vstd::prelude::*;
use crate::command::DrawCommand;
use crate::context::DrawContext;
use crate::lemmas::{lemma_finishes, lemma_push};
use crate::material::{Material, MaterialError, MaterialId};
use crate::model::{
    context_changes, count_started, count_terminals, material_changes, no_repeat, StateView,
};
use crate::primitive::Primitive;
use crate::value::{BufferHandle, Color};

verus! {

/// One call into a session between two drains.
pub enum Step {
    /// A handle under `context` with material `id` starts `primitive`.
    Draw { context: DrawContext, id: MaterialId, primitive: Primitive },
    /// A setter replaces the primitive in progress at `slot`.
    Replace { slot: usize, primitive: Primitive },
    /// A drawing is finished.
    Finish { slot: usize },
    /// A drawing is captured for instancing.
    CaptureInstanced { slot: usize, buffer: BufferHandle },
    /// An instanced draw is committed.
    FinishInstanced { slot: usize },
    /// An indirect draw is committed.
    FinishIndirect { slot: usize, arguments: BufferHandle, vertices: Option<BufferHandle> },
    /// Every drawing in progress is finished on behalf of a handle with
    /// material `id`.
    FinishRemaining { id: MaterialId },
    /// The frame is asked to be cleared.
    Background { color: Color },
    /// A material is bound.
    Bind { uuid: u128, material: Material },
    /// Text is appended to the text buffer.
    Text { bytes: Seq<u8> },
}

impl Step {
    /// Whether the step starts a primitive.
    pub open spec fn starts(self) -> bool {
        self is Draw
    }
}

/// The session after one step.
pub open spec fn apply(session: StateView, step: Step) -> StateView {
    match step {
        Step::Draw { context, id, primitive } => session.reserve(context, id, primitive),
        Step::Replace { slot, primitive } => session.replace(slot, primitive),
        Step::Finish { slot } => session.finish(slot),
        Step::CaptureInstanced { slot, buffer } => session.capture_instanced(slot, buffer),
        Step::FinishInstanced { slot } => session.finish_instanced(slot),
        Step::FinishIndirect { slot, arguments, vertices } => session.finish_indirect(
            slot,
            arguments,
            vertices,
        ),
        Step::FinishRemaining { id } => session.with_material(id).finish_all(),
        Step::Background { color } => session.with_background(color),
        Step::Bind { uuid, material } => session.bind(uuid, material),
        Step::Text { bytes } => session.with_text(bytes),
    }
}

/// The session after the steps, taken in order.
pub open spec fn run(session: StateView, steps: Seq<Step>) -> StateView
    decreases steps.len(),
{
    if steps.len() == 0 {
        session
    } else {
        apply(run(session, steps.drop_last()), steps.last())
    }
}

/// How many of the steps start a primitive.
pub open spec fn count_draws(steps: Seq<Step>) -> nat
    decreases steps.len(),
{
    if steps.len() == 0 {
        0
    } else {
        count_draws(steps.drop_last()) + if steps.last().starts() {
            1nat
        } else {
            0nat
        }
    }
}

/// A step keeps a session well formed, and the count of started primitives
/// grows by one where the step starts a primitive and stays where it does
/// not.
pub proof fn law_step(session: StateView, step: Step)
    requires
        session.wf(),
        step is Draw ==> session.commands.len() + 3 <= usize::MAX,
        step is Background ==> session.commands.len() + 1 <= usize::MAX,
        step is FinishRemaining ==> session.commands.len() + 1 <= usize::MAX,
    ensures
        apply(session, step).wf(),
        count_started(apply(session, step).commands) == count_started(session.commands) + if step.starts() {
            1nat
        } else {
            0nat
        },
{
    match step {
        Step::Draw { context, id, primitive } => {
            let first = session.with_context(context);
            lemma_push(session.commands, Some(DrawCommand::Context(context)));
            let second = first.with_material(id);
            lemma_push(first.commands, Some(DrawCommand::Material(id)));
            lemma_push(second.commands, None);
        },
        Step::Replace { slot, primitive } => {},
        Step::Finish { slot } => {
            lemma_finishes(session.finish(slot).commands, session.commands);
        },
        Step::CaptureInstanced { slot, buffer } => {},
        Step::FinishInstanced { slot } => {
            lemma_finishes(session.finish_instanced(slot).commands, session.commands);
        },
        Step::FinishIndirect { slot, arguments, vertices } => {
            lemma_finishes(
                session.finish_indirect(slot, arguments, vertices).commands,
                session.commands,
            );
        },
        Step::FinishRemaining { id } => {
            let flushed = session.with_material(id);
            lemma_push(session.commands, Some(DrawCommand::Material(id)));
            lemma_finishes(flushed.finish_all().commands, flushed.commands);
        },
        Step::Background { color } => {
            lemma_push(session.commands, Some(DrawCommand::BackgroundColor(color)));
        },
        Step::Bind { uuid, material } => {},
        Step::Text { bytes } => {},
    }
}

/// A step appends at most three entries to the log.
pub proof fn lemma_step_grows(session: StateView, step: Step)
    requires
        session.wf(),
    ensures
        session.commands.len() <= apply(session, step).commands.len() <= session.commands.len() + 3,
{
}

/// Whatever is drawn into a well-formed session, it stays well formed, and
/// the primitives that its log counts as started are those it counted
/// before and one more for each step that starts a primitive.
///
/// The log must have room for what the steps append: three entries each at
/// most.
pub proof fn law_run(session: StateView, steps: Seq<Step>)
    requires
        session.wf(),
        session.commands.len() + 3 * steps.len() + 1 <= usize::MAX,
    ensures
        run(session, steps).wf(),
        run(session, steps).commands.len() <= session.commands.len() + 3 * steps.len(),
        count_started(run(session, steps).commands) == count_started(session.commands)
            + count_draws(steps),
    decreases steps.len(),
{
    if steps.len() > 0 {
        law_run(session, steps.drop_last());
        let before = run(session, steps.drop_last());
        lemma_step_grows(before, steps.last());
        law_step(before, steps.last());
    }
}

/// The commands that a drain hands out draw as many primitives as the log
/// counts as started.
pub proof fn lemma_drained_terminals(session: StateView, id: MaterialId)
    ensures
        count_terminals(session.drained(id)) == count_started(session.commands),
{
    if session.commands.len() > 0 {
        lemma_push(session.commands, Some(DrawCommand::Material(id)));
        lemma_resolved_terminals(session.with_material(id));
    }
}

/// The resolved log draws as many primitives as the log counts as started.
proof fn lemma_resolved_terminals(session: StateView)
    ensures
        count_terminals(session.resolved_commands()) == count_started(session.commands),
    decreases session.commands.len(),
{
    if session.commands.len() > 0 {
        let shorter = StateView { commands: session.commands.drop_last(), ..session };
        assert(shorter.resolved_commands() =~= session.resolved_commands().drop_last());
        lemma_resolved_terminals(shorter);
    }
}

/// Every started primitive yields exactly one command that draws it.
///
/// Start a frame with an empty log, make any calls, and drain: the commands
/// handed out that draw a primitive (plainly, instanced or indirectly) are
/// as many as the calls that started one.
pub proof fn law_every_started_primitive_drains_once(
    session: StateView,
    steps: Seq<Step>,
    id: MaterialId,
)
    requires
        session.wf(),
        session.commands.len() == 0,
        3 * steps.len() + 1 <= usize::MAX,
    ensures
        count_terminals(run(session, steps).drained(id)) == count_draws(steps),
{
    law_run(session, steps);
    lemma_drained_terminals(run(session, steps), id);
}

/// A change command is emitted if and only if the value differs from the
/// one last emitted.
///
/// When a handle starts a primitive, the log gains a context-change command
/// exactly if the handle's context is not the one remembered, and a
/// material-change command exactly if its material is not the one
/// remembered; afterwards the handle's context and material are the ones
/// remembered.
pub proof fn law_change_emitted_iff_differs(
    session: StateView,
    context: DrawContext,
    id: MaterialId,
    primitive: Primitive,
)
    ensures
        context_changes(session.reserve(context, id, primitive).commands) == (if session.last_context
            == Some(context) {
            context_changes(session.commands)
        } else {
            context_changes(session.commands).push(context)
        }),
        material_changes(session.reserve(context, id, primitive).commands) == (if session.last_material
            == Some(id) {
            material_changes(session.commands)
        } else {
            material_changes(session.commands).push(id)
        }),
        session.reserve(context, id, primitive).last_context == Some(context),
        session.reserve(context, id, primitive).last_material == Some(id),
{
    let first = session.with_context(context);
    lemma_push(session.commands, Some(DrawCommand::Context(context)));
    let second = first.with_material(id);
    lemma_push(first.commands, Some(DrawCommand::Material(id)));
    lemma_push(second.commands, None);
}

/// No two change commands of one kind that follow one another in the log
/// carry the same value, whatever was drawn.
pub proof fn law_no_repeated_change(session: StateView, steps: Seq<Step>)
    requires
        session.wf(),
        session.commands.len() + 3 * steps.len() + 1 <= usize::MAX,
    ensures
        no_repeat(context_changes(run(session, steps).commands)),
        no_repeat(material_changes(run(session, steps).commands)),
{
    law_run(session, steps);
}

/// The order in which two drawings are finished does not matter.
pub proof fn law_finish_order(session: StateView, first: usize, second: usize)
    requires
        session.wf(),
    ensures
        session.finish(first).finish(second) == session.finish(second).finish(first),
{
    let a = session.finish(first).finish(second);
    let b = session.finish(second).finish(first);
    assert(a.commands =~= b.commands);
    assert(a.drawing =~= b.drawing);
    assert(a.instanced =~= b.instanced);
}

/// Command order equals reservation order: a primitive is drained at the
/// position that was reserved for it, whether its drawing was finished
/// before the drain or by it, and the commands before it are those that
/// the log and the change commands give.
pub proof fn law_finish_keeps_drained(session: StateView, slot: usize, id: MaterialId)
    requires
        session.wf(),
    ensures
        session.finish(slot).drained(id) == session.drained(id),
{
    assert(session.finish(slot).drained(id) =~= session.drained(id));
}

/// A primitive that was started is drained at its slot, as the plain
/// command that draws it, by whichever handle drains.
pub proof fn law_drained_at_reserved_slot(
    session: StateView,
    context: DrawContext,
    id: MaterialId,
    primitive: Primitive,
    drains: MaterialId,
)
    requires
        session.wf(),
        session.commands.len() + 3 <= usize::MAX,
    ensures
        session.next_slot(context, id) < session.reserve(context, id, primitive).drained(
            drains,
        ).len(),
        session.reserve(context, id, primitive).drained(drains)[session.next_slot(context, id) as int]
            == DrawCommand::Primitive(primitive),
        forall|i: int|
            0 <= i < session.commands.len() ==> #[trigger] session.reserve(
                context,
                id,
                primitive,
            ).drained(drains)[i] == session.drained(drains)[i],
{
}

/// A drain that follows a drain, with nothing drawn in between, hands out
/// nothing and changes nothing, whichever handles drain.
pub proof fn law_second_drain_is_empty(session: StateView, first: MaterialId, second: MaterialId)
    ensures
        session.after_drain(first).drained(second) == Seq::<DrawCommand>::empty(),
        session.after_drain(first).after_drain(second) == session.after_drain(first),
{
}

/// Draining a session whose log is empty hands out nothing.
pub proof fn law_empty_log_drains_to_nothing(session: StateView, id: MaterialId)
    requires
        session.commands.len() == 0,
    ensures
        session.drained(id) == Seq::<DrawCommand>::empty(),
{
}

/// Two materials of one value, bound under different instance numbers, get
/// different ids, and each id resolves to its own material: rebinding one
/// does not change what the other resolves to.
pub proof fn law_bound_materials_are_distinct(
    session: StateView,
    first: u128,
    second: u128,
    value: Material,
    other: Material,
)
    requires
        first != second,
    ensures
        StateView::bound_id(first, value) != StateView::bound_id(second, value),
        session.bind(first, value).bind(second, value).typed(StateView::bound_id(first, value))
            == Ok::<Material, MaterialError>(value),
        session.bind(first, value).bind(second, value).typed(StateView::bound_id(second, value))
            == Ok::<Material, MaterialError>(value),
        session.bind(first, value).bind(second, value).bind(first, other).typed(
            StateView::bound_id(second, value),
        ) == Ok::<Material, MaterialError>(value),
{
}

/// Two materials of different shapes get different ids even under one
/// instance number, and each id resolves to its own material.
pub proof fn law_shapes_do_not_collide(
    session: StateView,
    uuid: u128,
    first: Material,
    second: Material,
)
    requires
        first.spec_type_tag() != second.spec_type_tag(),
    ensures
        StateView::bound_id(uuid, first) != StateView::bound_id(uuid, second),
        session.bind(uuid, first).bind(uuid, second).typed(StateView::bound_id(uuid, first))
            == Ok::<Material, MaterialError>(first),
        session.bind(uuid, first).bind(uuid, second).typed(StateView::bound_id(uuid, second))
            == Ok::<Material, MaterialError>(second),
{
}

} // verus!
