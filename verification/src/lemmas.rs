//! Facts about the log that the proofs of the session's operations share.

use vstd::prelude::*;
use crate::command::DrawCommand;
use crate::model::{context_changes, count_started, material_changes, Log, StateView};

verus! {

/// What appending one entry does to the change commands and to the count of
/// started primitives.
pub proof fn lemma_push(log: Log, entry: Option<DrawCommand>)
    ensures
        context_changes(log.push(entry)) == (match entry {
            Some(DrawCommand::Context(context)) => context_changes(log).push(context),
            _ => context_changes(log),
        }),
        material_changes(log.push(entry)) == (match entry {
            Some(DrawCommand::Material(id)) => material_changes(log).push(id),
            _ => material_changes(log),
        }),
        count_started(log.push(entry)) == count_started(log) + (match entry {
            None => 1nat,
            Some(command) => if command.spec_is_terminal() {
                1nat
            } else {
                0nat
            },
        }),
{
    assert(log.push(entry).drop_last() =~= log);
}

/// One log finishes another: they agree everywhere but where the first has
/// a reserved position and the second a command that draws a primitive.
pub open spec fn finishes(later: Log, earlier: Log) -> bool {
    &&& later.len() == earlier.len()
    &&& forall|i: int|
        0 <= i < earlier.len() ==> #[trigger] later[i] == earlier[i] || (earlier[i] is None
            && later[i] is Some && later[i].unwrap().spec_is_terminal())
}

/// Finishing primitives leaves the change commands and the count of started
/// primitives as they were.
pub proof fn lemma_finishes(later: Log, earlier: Log)
    requires
        finishes(later, earlier),
    ensures
        context_changes(later) == context_changes(earlier),
        material_changes(later) == material_changes(earlier),
        count_started(later) == count_started(earlier),
    decreases earlier.len(),
{
    if earlier.len() > 0 {
        let last = earlier.len() - 1;
        assert(later[last] == earlier[last] || (earlier[last] is None && later[last] is Some
            && later[last].unwrap().spec_is_terminal()));
        assert forall|i: int| 0 <= i < earlier.drop_last().len() implies #[trigger] later.drop_last()[i]
            == earlier.drop_last()[i] || (earlier.drop_last()[i] is None && later.drop_last()[i] is Some
            && later.drop_last()[i].unwrap().spec_is_terminal()) by {
            assert(later[i] == earlier[i] || (earlier[i] is None && later[i] is Some
                && later[i].unwrap().spec_is_terminal()));
        }
        lemma_finishes(later.drop_last(), earlier.drop_last());
    }
}

/// Filling the slot of a primitive in progress keeps a session well formed.
pub proof fn lemma_fill_wf(session: StateView, slot: usize, command: DrawCommand)
    requires
        session.wf(),
        session.drawing.contains_key(slot),
        command.spec_is_terminal(),
    ensures
        session.fill(slot, command).wf(),
        count_started(session.fill(slot, command).commands) == count_started(session.commands),
{
    lemma_finishes(session.fill(slot, command).commands, session.commands);
}

/// Finishing every primitive in progress keeps a session well formed.
pub proof fn lemma_finish_all_wf(session: StateView)
    requires
        session.wf(),
    ensures
        session.finish_all().wf(),
        count_started(session.finish_all().commands) == count_started(session.commands),
{
    lemma_finishes(session.finish_all().commands, session.commands);
}

} // verus!
