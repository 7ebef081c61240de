//! The state manager: a LIFO stack of dormant states and at most one active
//! state, driven once per frame by `update` then `draw`.
//!
//! States are pushed before the loop starts; `change_state` pops the top of
//! the stack into the active slot, replacing (and discarding) whatever was
//! active. Popping an empty stack is a recoverable error, never a crash.
//! During `update` the manager delegates to the active state, then consumes
//! its edge-triggered transition request and, if raised, performs the pop.

use vstd::prelude::*;

use crate::state::DrawCommand;
use crate::state::State;

verus! {

/// A transition was requested while no dormant state was left on the stack.
#[derive(Clone, Copy, Debug, PartialEq, Eq, Structural)]
pub struct EmptyStackError;

/// Owns every state: the dormant ones on a LIFO stack (last pushed at the
/// end), and at most one active state receiving the per-frame calls.
pub struct StateManager {
    /// Dormant states awaiting activation; the last element is the top.
    pub states: Vec<State>,
    /// The state currently receiving update and draw calls, if any.
    pub current_state: Option<State>,
}

impl StateManager {
    /// Every owned state is well-formed.
    pub open spec fn wf(self) -> bool {
        &&& forall|i: int| 0 <= i < self.states@.len() ==> self.states@[i].wf()
        &&& match self.current_state {
            Some(a) => a.wf(),
            None => true,
        }
    }

    /// Another update tick keeps the active state's counters within machine
    /// limits. Holds vacuously with no active state.
    pub open spec fn can_update(self) -> bool {
        match self.current_state {
            Some(a) => a.can_update(),
            None => true,
        }
    }

    /// Another draw call keeps the active state's draw counter within machine
    /// limits. Holds vacuously with no active state.
    pub open spec fn can_draw(self) -> bool {
        match self.current_state {
            Some(a) => a.can_draw(),
            None => true,
        }
    }

    /// A fresh manager: empty stack, no active state.
    pub fn new() -> (m: StateManager)
        ensures
            m.states@ == Seq::<State>::empty(),
            m.current_state is None,
            m.wf(),
    {
        StateManager { states: Vec::new(), current_state: None }
    }

    /// Pushes one state onto the top of the stack. Order-sensitive: states
    /// are activated in reverse push order. The active slot is untouched.
    pub fn add_state(&mut self, state: State)
        ensures
            final(self).states@ == old(self).states@.push(state),
            final(self).current_state == old(self).current_state,
            old(self).wf() && state.wf() ==> final(self).wf(),
    {
        self.states.push(state);
    }

    /// Pops the top of the stack into the active slot, replacing and
    /// discarding whatever was active. On an empty stack it fails with
    /// `EmptyStackError` and changes nothing.
    pub fn change_state(&mut self) -> (r: Result<(), EmptyStackError>)
        ensures
            old(self).states@.len() == 0 ==> r == Err::<(), EmptyStackError>(EmptyStackError)
                && final(self).states@ == old(self).states@
                && final(self).current_state == old(self).current_state,
            old(self).states@.len() > 0 ==> r == Ok::<(), EmptyStackError>(())
                && final(self).current_state == Some(old(self).states@.last())
                && final(self).states@ == old(self).states@.drop_last(),
            old(self).wf() ==> final(self).wf(),
    {
        match self.states.pop() {
            Some(next) => {
                self.current_state = Some(next);
                Ok(())
            },
            None => Err(EmptyStackError),
        }
    }

    /// One logical tick of the whole machine. With no active state this is a
    /// successful no-op. Otherwise the active state updates, then its
    /// transition request is consumed; if it was raised, the manager pops the
    /// next state into the active slot, discarding the old one, or fails with
    /// `EmptyStackError` when no dormant state is left — the updated state
    /// (with its request consumed) then stays active.
    pub fn update(&mut self) -> (r: Result<(), EmptyStackError>)
        requires
            old(self).wf(),
            old(self).can_update(),
        ensures
            final(self).wf(),
            old(self).current_state is None ==> r == Ok::<(), EmptyStackError>(())
                && final(self).states@ == old(self).states@
                && final(self).current_state == old(self).current_state,
            old(self).current_state matches Some(a) ==> {
                &&& !a.spec_update().wants() ==> r == Ok::<(), EmptyStackError>(())
                    && final(self).states@ == old(self).states@
                    && final(self).current_state == Some(a.spec_update())
                &&& a.spec_update().wants() && old(self).states@.len() > 0
                    ==> r == Ok::<(), EmptyStackError>(())
                    && final(self).states@ == old(self).states@.drop_last()
                    && final(self).current_state == Some(old(self).states@.last())
                &&& a.spec_update().wants() && old(self).states@.len() == 0
                    ==> r == Err::<(), EmptyStackError>(EmptyStackError)
                    && final(self).states@ == old(self).states@
                    && final(self).current_state == Some(a.spec_update().spec_cleared())
            },
    {
        match &mut self.current_state {
            Some(current_state) => {
                current_state.update();
                if current_state.wants_transition() {
                    self.change_state()
                } else {
                    Ok(())
                }
            },
            None => Ok(()),
        }
    }

    /// One frame of output. With no active state: `None`, nothing changes.
    /// Otherwise the active state's draw command comes back and only that
    /// state's draw counter moves: drawing never changes the stack, the
    /// active state's identity, or its transition request.
    pub fn draw(&mut self) -> (r: Option<DrawCommand>)
        requires
            old(self).can_draw(),
        ensures
            old(self).current_state is None ==> r is None
                && final(self).states@ == old(self).states@
                && final(self).current_state == old(self).current_state,
            old(self).current_state matches Some(a) ==> final(self).states@ == old(self).states@
                && final(self).current_state == Some(a.spec_after_draw())
                && (r matches Some(c) && c.text@ == a.spec_text() && c.frame == a.spec_draws()),
            old(self).wf() ==> final(self).wf(),
    {
        match &mut self.current_state {
            Some(current_state) => Some(current_state.draw()),
            None => None,
        }
    }

    /// The display name of the active state, if one is active.
    pub fn active_name(&self) -> (r: Option<&'static str>)
        ensures
            self.current_state is None ==> r is None,
            self.current_state matches Some(a)
                ==> (r matches Some(n) && n@ == a.spec_name()),
    {
        match &self.current_state {
            Some(current_state) => Some(current_state.get_name()),
            None => None,
        }
    }

    /// Whether some state is active.
    pub fn has_active(&self) -> (r: bool)
        ensures
            r == (self.current_state is Some),
    {
        self.current_state.is_some()
    }

    /// How many dormant states wait on the stack.
    pub fn stack_len(&self) -> (r: usize)
        ensures
            r == self.states@.len(),
    {
        self.states.len()
    }
}

/// The stack after pushing every element of `pushed`, in order, as repeated
/// `add_state` calls do.
pub open spec fn spec_stack_after_pushes(stack: Seq<State>, pushed: Seq<State>) -> Seq<State>
    decreases pushed.len(),
{
    if pushed.len() == 0 {
        stack
    } else {
        spec_stack_after_pushes(stack.push(pushed[0]), pushed.drop_first())
    }
}

/// The active slot after one `change_state` call on a stack with the given
/// contents: the top of the stack when one exists, the old occupant when the
/// call fails on an empty stack.
pub open spec fn spec_active_after_change(stack: Seq<State>, active: Option<State>) -> Option<
    State,
> {
    if stack.len() == 0 {
        active
    } else {
        Some(stack.last())
    }
}

/// Pushing a sequence of states appends it to the stack in order.
pub proof fn lemma_pushes_append(stack: Seq<State>, pushed: Seq<State>)
    ensures
        spec_stack_after_pushes(stack, pushed) == stack + pushed,
    decreases pushed.len(),
{
    if pushed.len() == 0 {
        assert(spec_stack_after_pushes(stack, pushed) =~= stack + pushed);
    } else {
        lemma_pushes_append(stack.push(pushed[0]), pushed.drop_first());
        assert(stack.push(pushed[0]) + pushed.drop_first() =~= stack + pushed);
    }
}

/// Activation is LIFO: after any sequence of `add_state` calls, at least one
/// of them, followed by one `change_state`, the active state is exactly the
/// most recently pushed one, whatever the manager held before.
pub proof fn lemma_push_then_change_is_lifo(
    stack: Seq<State>,
    active: Option<State>,
    pushed: Seq<State>,
)
    requires
        pushed.len() > 0,
    ensures
        spec_active_after_change(spec_stack_after_pushes(stack, pushed), active) == Some(
            pushed.last(),
        ),
{
    lemma_pushes_append(stack, pushed);
    assert((stack + pushed).last() == pushed.last());
}

} // verus!
