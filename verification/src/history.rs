//! Undo and redo.

use vstd::prelude::*;

verus! {

/// How many steps can be taken back.
pub const MAX_STEPS: usize = 50;

/// States to go back to and states to return to, both with the nearest last.
///
/// Edits that begin in the middle of drawing a frame leave the state before them in `pending`;
/// it is recorded when the frame ends, unless a step was recorded in that frame already.
pub struct History<P> {
    pub undo_stack: Vec<P>,
    pub redo_stack: Vec<P>,
    pub pending: Option<P>,
    /// Whether a step was recorded in this frame.
    pub marked: bool,
}

/// Both stacks.
#[verifier::ext_equal]
pub struct Steps<P> {
    pub back: Seq<P>,
    pub forth: Seq<P>,
}

/// The stacks after a state was recorded: the oldest goes when there are too many, and there is
/// nothing to return to.
pub open spec fn recorded<P>(s: Steps<P>, state: P) -> Steps<P> {
    let b = s.back.push(state);
    Steps {
        back: if b.len() > MAX_STEPS {
            b.skip(1)
        } else {
            b
        },
        forth: Seq::empty(),
    }
}

/// The stacks and the state after a step back.
pub open spec fn stepped_back<P>(s: Steps<P>, current: P) -> (Steps<P>, P) {
    if s.back.len() == 0 {
        (s, current)
    } else {
        (
            Steps { back: s.back.drop_last(), forth: s.forth.push(current) },
            s.back.last(),
        )
    }
}

/// The stacks and the state after a step forth.
pub open spec fn stepped_forth<P>(s: Steps<P>, current: P) -> (Steps<P>, P) {
    if s.forth.len() == 0 {
        (s, current)
    } else {
        (
            Steps { back: s.back.push(current), forth: s.forth.drop_last() },
            s.forth.last(),
        )
    }
}

impl<P> Default for History<P> {
    fn default() -> (h: Self)
        ensures
            h.steps() == (Steps::<P> { back: Seq::empty(), forth: Seq::empty() }),
            h.pending is None,
            !h.marked,
            h.wf(),
    {
        History { undo_stack: Vec::new(), redo_stack: Vec::new(), pending: None, marked: false }
    }
}

impl<P> History<P> {
    pub open spec fn steps(self) -> Steps<P> {
        Steps { back: self.undo_stack@, forth: self.redo_stack@ }
    }

    /// Both stacks together never hold more than [`MAX_STEPS`].
    pub open spec fn wf(self) -> bool {
        self.undo_stack@.len() + self.redo_stack@.len() <= MAX_STEPS
    }

    /// Records a state to go back to.
    pub fn push(&mut self, state: P)
        requires
            old(self).wf(),
        ensures
            final(self).wf(),
            final(self).steps() == recorded(old(self).steps(), state),
            final(self).pending == old(self).pending,
            final(self).marked,
    {
        self.undo_stack.push(state);
        self.redo_stack.clear();
        if self.undo_stack.len() > MAX_STEPS {
            let ghost b = self.undo_stack@;
            self.undo_stack.remove(0);
            assert(self.undo_stack@ =~= b.skip(1));
        }
        self.marked = true;
    }

    /// Goes one step back, if there is one; true when it did.
    pub fn undo(&mut self, current: &mut P) -> (done: bool)
        requires
            old(self).wf(),
        ensures
            final(self).wf(),
            (final(self).steps(), *final(current)) == stepped_back(
                old(self).steps(),
                *old(current),
            ),
            done == (old(self).undo_stack@.len() > 0),
            final(self).pending == old(self).pending,
            final(self).marked == old(self).marked,
    {
        match self.undo_stack.pop() {
            None => false,
            Some(prev) => {
                let mut state = prev;
                std::mem::swap(&mut state, current);
                self.redo_stack.push(state);
                true
            },
        }
    }

    /// Takes a step back back, if there was one; true when it did.
    pub fn redo(&mut self, current: &mut P) -> (done: bool)
        requires
            old(self).wf(),
        ensures
            final(self).wf(),
            (final(self).steps(), *final(current)) == stepped_forth(
                old(self).steps(),
                *old(current),
            ),
            done == (old(self).redo_stack@.len() > 0),
            final(self).pending == old(self).pending,
            final(self).marked == old(self).marked,
    {
        match self.redo_stack.pop() {
            None => false,
            Some(next) => {
                let mut state = next;
                std::mem::swap(&mut state, current);
                self.undo_stack.push(state);
                true
            },
        }
    }

    /// Forgets all steps: they belong to another file.
    pub fn clear(&mut self)
        ensures
            final(self).wf(),
            final(self).steps() == (Steps::<P> { back: Seq::empty(), forth: Seq::empty() }),
            final(self).pending == old(self).pending,
            final(self).marked == old(self).marked,
    {
        self.undo_stack.clear();
        self.redo_stack.clear();
    }

    /// Leaves the state before an edit to be recorded when the frame ends.
    pub fn hold(&mut self, state: P)
        ensures
            final(self).steps() == old(self).steps(),
            final(self).pending == Some(state),
            final(self).marked == old(self).marked,
    {
        self.pending = Some(state);
    }

    /// Ends a frame: several edits of one frame make one step.
    pub fn end_frame(&mut self)
        requires
            old(self).wf(),
        ensures
            final(self).wf(),
            final(self).pending is None,
            !final(self).marked,
            final(self).steps() == (if old(self).marked || old(self).pending is None {
                old(self).steps()
            } else {
                recorded(old(self).steps(), old(self).pending->0)
            }),
    {
        let pending = self.pending.take();
        if !self.marked {
            if let Some(state) = pending {
                self.push(state);
            }
        }
        self.marked = false;
    }
}

/// A step back undoes what followed the last recorded state, and a step forth brings it back.
pub proof fn undo_takes_back<P>(s: Steps<P>, before: P, after: P)
    ensures
        ({
            let (t, state) = stepped_back(recorded(s, before), after);
            &&& state == before
            &&& stepped_forth(t, state) == (recorded(s, before), after)
        }),
{
    let r = recorded(s, before);
    assert(r.back.last() == before);
    assert(r.back.drop_last().push(before) =~= r.back);
    assert(r.forth.push(after).drop_last() =~= r.forth);
}

/// Wherever there is a step back, it and a step forth cancel out.
pub proof fn back_and_forth<P>(s: Steps<P>, current: P)
    requires
        s.back.len() > 0,
    ensures
        ({
            let (t, state) = stepped_back(s, current);
            stepped_forth(t, state) == (s, current)
        }),
{
    assert(s.back.drop_last().push(s.back.last()) =~= s.back);
    assert(s.forth.push(current).drop_last() =~= s.forth);
}

/// Wherever there is a step forth, it and a step back cancel out.
pub proof fn forth_and_back<P>(s: Steps<P>, current: P)
    requires
        s.forth.len() > 0,
    ensures
        ({
            let (t, state) = stepped_forth(s, current);
            stepped_back(t, state) == (s, current)
        }),
{
    assert(s.forth.drop_last().push(s.forth.last()) =~= s.forth);
    assert(s.back.push(current).drop_last() =~= s.back);
}

/// The states recorded one after the other.
pub open spec fn recorded_all<P>(s: Steps<P>, states: Seq<P>) -> Steps<P>
    decreases states.len(),
{
    if states.len() == 0 {
        s
    } else {
        recorded(recorded_all(s, states.drop_last()), states.last())
    }
}

/// The state after as many steps back as `n`.
pub open spec fn far_back<P>(s: Steps<P>, current: P, n: nat) -> P
    decreases n,
{
    if n == 0 {
        current
    } else {
        let (t, state) = stepped_back(s, current);
        far_back(t, state, (n - 1) as nat)
    }
}

/// The last [`MAX_STEPS`] recorded states can all be returned to: `n` steps back lead to the
/// `n`th state from the end.
pub proof fn every_step_comes_back<P>(s: Steps<P>, states: Seq<P>, current: P, n: nat)
    requires
        s.back.len() <= MAX_STEPS,
        1 <= n <= states.len(),
        n <= MAX_STEPS,
    ensures
        far_back(recorded_all(s, states), current, n) == states[states.len() - n],
{
    tail_recorded(s, states, n);
    walk_back(recorded_all(s, states), current, n);
    let k = n - 1;
    assert(states[states.len() - 1 - k] == states[states.len() - n]);
}

proof fn tail_recorded<P>(s: Steps<P>, states: Seq<P>, n: nat)
    requires
        s.back.len() <= MAX_STEPS,
        n <= states.len(),
        n <= MAX_STEPS,
    ensures
        n <= recorded_all(s, states).back.len() <= MAX_STEPS,
        forall|k: int|
            0 <= k < n ==> #[trigger] states[states.len() - 1 - k] == recorded_all(
                s,
                states,
            ).back[recorded_all(s, states).back.len() - 1 - k],
    decreases states.len(),
{
    if states.len() > 0 {
        let d = states.drop_last();
        if n > 0 {
            tail_recorded(s, d, (n - 1) as nat);
            let r = recorded_all(s, states).back;
            let q = recorded_all(s, d).back;
            assert forall|k: int| 0 <= k < n implies #[trigger] states[states.len() - 1 - k]
                == r[r.len() - 1 - k] by {
                if k > 0 {
                    assert(d[d.len() - 1 - (k - 1)] == states[states.len() - 1 - k]);
                    assert(q[q.len() - 1 - (k - 1)] == r[r.len() - 1 - k]);
                }
            }
        } else {
            tail_recorded(s, d, 0);
        }
    }
}

proof fn walk_back<P>(s: Steps<P>, current: P, n: nat)
    requires
        1 <= n <= s.back.len(),
    ensures
        far_back(s, current, n) == s.back[s.back.len() - n],
    decreases n,
{
    let (t, state) = stepped_back(s, current);
    if n == 1 {
        assert(far_back(t, state, 0) == state);
    } else {
        walk_back(t, state, (n - 1) as nat);
    }
}

/// After something new there is nothing to do again, and never are more than fifty states kept;
/// the newest always is.
pub proof fn something_new_ends_redo<P>(s: Steps<P>, state: P, current: P)
    ensures
        recorded(s, state).forth.len() == 0,
        stepped_forth(recorded(s, state), current).1 == current,
        s.back.len() <= 50 ==> recorded(s, state).back.len() <= 50,
        recorded(s, state).back.last() == state,
        s.back.len() < 50 ==> recorded(s, state).back.drop_last() == s.back,
        s.back.len() == 50 ==> recorded(s, state).back.drop_last() == s.back.skip(1),
{
    assert(s.back.push(state).drop_last() =~= s.back);
    if s.back.len() == 50 {
        assert(s.back.push(state).skip(1).drop_last() =~= s.back.skip(1));
    }
}

} // verus!
