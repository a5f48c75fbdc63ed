//! Snapshot-based undo: a bounded stack of saved session states,
//! evicting the oldest snapshot once the bound is reached (FIFO
//! eviction, LIFO restore).

use vstd::prelude::*;
use crate::state::AppState;

verus! {

/// The most snapshots the stack retains.
pub const UNDO_LIMIT: usize = 20;

/// What one snapshot call does to the stack: the new state goes on
/// top, and when the bound would be exceeded the oldest entry leaves.
pub open spec fn push_snapshot(stack: Seq<AppState>, state: AppState) -> Seq<AppState> {
    let grown = stack.push(state);
    if grown.len() > UNDO_LIMIT {
        grown.subrange(1, grown.len() as int)
    } else {
        grown
    }
}

/// The stack after a whole run of snapshot calls, oldest first.
pub open spec fn apply_snapshots(stack: Seq<AppState>, states: Seq<AppState>) -> Seq<AppState>
    decreases states.len(),
{
    if states.len() == 0 {
        stack
    } else {
        apply_snapshots(push_snapshot(stack, states[0]), states.drop_first())
    }
}

/// The undo stack of a session.
pub struct UndoManager {
    pub undo_stack: Vec<AppState>,
}

impl UndoManager {
    pub fn new() -> (r: Self)
        ensures
            r.undo_stack@ =~= Seq::<AppState>::empty(),
    {
        Self { undo_stack: Vec::new() }
    }

    /// Push a snapshot; once the stack passes `UNDO_LIMIT` entries the
    /// oldest one is evicted, so the bound is a hard ceiling.
    pub fn save_state(&mut self, state: AppState)
        ensures
            final(self).undo_stack@ == push_snapshot(old(self).undo_stack@, state),
            old(self).undo_stack@.len() <= UNDO_LIMIT ==> final(self).undo_stack@.len()
                <= UNDO_LIMIT,
    {
        self.undo_stack.push(state);
        if self.undo_stack.len() > UNDO_LIMIT {
            self.undo_stack.remove(0);
            proof {
                assert(self.undo_stack@ =~= push_snapshot(old(self).undo_stack@, state));
            }
        }
    }

    /// Pop and return the most recent snapshot, newest first; nothing
    /// when the stack is empty.
    pub fn undo(&mut self) -> (r: Option<AppState>)
        ensures
            old(self).undo_stack@.len() == 0 ==> r is None && final(self).undo_stack@ == old(
                self,
            ).undo_stack@,
            old(self).undo_stack@.len() > 0 ==> r == Some(old(self).undo_stack@.last())
                && final(self).undo_stack@ == old(self).undo_stack@.drop_last(),
    {
        self.undo_stack.pop()
    }
}

proof fn lemma_apply_snapshots_push(stack: Seq<AppState>, states: Seq<AppState>, state: AppState)
    ensures
        apply_snapshots(stack, states.push(state)) == push_snapshot(
            apply_snapshots(stack, states),
            state,
        ),
    decreases states.len(),
{
    if states.len() == 0 {
        assert(states.push(state).drop_first() =~= Seq::<AppState>::empty());
        assert(apply_snapshots(stack, states.push(state)) == apply_snapshots(
            push_snapshot(stack, state),
            Seq::<AppState>::empty(),
        ));
    } else {
        assert(states.push(state)[0] == states[0]);
        assert(states.push(state).drop_first() =~= states.drop_first().push(state));
        lemma_apply_snapshots_push(push_snapshot(stack, states[0]), states.drop_first(), state);
    }
}

/// Feeding a run of snapshots into an empty stack retains exactly the
/// most recent `UNDO_LIMIT` of them, in chronological order: a shorter
/// run is kept whole, a longer one loses its oldest entries.  After 21
/// snapshot calls the first is unrecoverable and the remaining 20 come
/// back newest-first through `undo`.
pub proof fn lemma_snapshot_run(states: Seq<AppState>)
    ensures
        states.len() <= UNDO_LIMIT ==> apply_snapshots(Seq::empty(), states) == states,
        states.len() > UNDO_LIMIT ==> apply_snapshots(Seq::empty(), states) == states.subrange(
            states.len() - UNDO_LIMIT,
            states.len() as int,
        ),
        apply_snapshots(Seq::empty(), states).len() <= UNDO_LIMIT,
    decreases states.len(),
{
    if states.len() == 0 {
        assert(apply_snapshots(Seq::empty(), states) =~= states);
    } else {
        let head = states.drop_last();
        let x = states.last();
        lemma_snapshot_run(head);
        assert(states =~= head.push(x));
        lemma_apply_snapshots_push(Seq::empty(), head, x);
        if head.len() < UNDO_LIMIT {
            assert(apply_snapshots(Seq::empty(), states) =~= states);
        } else if head.len() == UNDO_LIMIT {
            assert(apply_snapshots(Seq::empty(), states) =~= states.subrange(
                1,
                states.len() as int,
            ));
        } else {
            assert(apply_snapshots(Seq::empty(), states) =~= states.subrange(
                states.len() - UNDO_LIMIT,
                states.len() as int,
            ));
        }
    }
}

/// What writes snapshots before each mutation and restores them on
/// request.
pub trait UndoableApp {
    fn save_current_state(&mut self);

    fn restore_state(&mut self, state: AppState) -> bool;

    fn perform_undo(&mut self) -> bool;
}

} // verus!
