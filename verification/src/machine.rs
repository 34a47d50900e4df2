use vstd::prelude::*;

use crate::behavior::StateBehavior;

verus! {

/// The engine: owns exactly one current state value and one context value,
/// and enforces the transition protocol. On every state-driven transition
/// the sequence is strict: `exit` on the old state, then the state field is
/// overwritten, then `enter` on the new state, all against the one shared
/// context. The contracts below express that order by how the spec-level
/// hooks compose: the exit hook is applied to the context first, the enter
/// hook of the new state last.
#[verifier::reject_recursive_types(S)]
pub struct StateMachine<S: StateBehavior<State = S> + Copy> {
    current_state: S,
    context: S::Context,
}

impl<S: StateBehavior<State = S> + Copy> StateMachine<S> {
    /// The current state, for use in contracts.
    pub closed spec fn state(self) -> S {
        self.current_state
    }

    /// The context, for use in contracts.
    pub closed spec fn ctx(self) -> S::Context {
        self.context
    }

    /// Construct a machine with the given state and context. Runs no hooks:
    /// the initial state is installed without firing `enter`. Entering the
    /// initial state is the caller's responsibility if side effects are
    /// required.
    pub fn new(initial_state: S, context: S::Context) -> (machine: Self)
        ensures
            machine.state() == initial_state,
            machine.ctx() == context,
    {
        StateMachine { current_state: initial_state, context }
    }

    /// Return a copy of the current state. No side effects; always succeeds.
    pub fn get_current_state(&self) -> (state: S)
        ensures
            state == self.state(),
    {
        self.current_state
    }

    /// Borrow the context for inspection.
    pub fn context(&self) -> (context: &S::Context)
        ensures
            *context == self.ctx(),
    {
        &self.context
    }

    /// State-driven transition with protocol enforcement: calls `exit` on
    /// the current state against the context, overwrites the current state
    /// with `new_state`, then calls `enter` on the new state against the
    /// context. Use when the caller, not the current state's `handle`,
    /// decides the next state.
    ///
    /// Exactly one `exit` and exactly one `enter` run, even when
    /// `new_state` equals the current state: a self-transition still fires
    /// both hooks.
    pub fn transition(&mut self, new_state: S)
        ensures
            final(self).state() == new_state,
            final(self).ctx() == new_state.context_after_enter(
                old(self).state().context_after_exit(old(self).ctx()),
            ),
    {
        self.current_state.exit(&mut self.context);
        self.current_state = new_state;
        self.current_state.enter(&mut self.context);
    }

    /// Overwrite the current state directly, skipping both hooks: neither
    /// `exit` nor `enter` is invoked, and the context is left untouched.
    /// Use only for initialization or diagnostic scenarios where hook side
    /// effects must not fire; callers are responsible for keeping the
    /// context consistent afterward.
    pub fn force_state(&mut self, new_state: S)
        ensures
            final(self).state() == new_state,
            final(self).ctx() == old(self).ctx(),
    {
        self.current_state = new_state;
    }

    /// Deliver one event: invoke the current state's `handle` with the
    /// event and the context. If it returns a next state, run the full
    /// exit -> commit -> enter protocol exactly as `transition` does; if it
    /// returns `None`, the current state is left unchanged and the context
    /// reflects only whatever `handle` itself mutated — neither hook runs.
    pub fn handle(&mut self, event: S::Event)
        ensures
            ({
                let decided = old(self).state().next_state(event, old(self).ctx());
                let handled = old(self).state().context_after_handle(event, old(self).ctx());
                match decided {
                    Some(next) => final(self).state() == next
                        && final(self).ctx() == next.context_after_enter(
                            old(self).state().context_after_exit(handled),
                        ),
                    None => final(self).state() == old(self).state()
                        && final(self).ctx() == handled,
                }
            }),
    {
        match self.current_state.handle(&event, &mut self.context) {
            Some(next_state) => {
                self.current_state.exit(&mut self.context);
                self.current_state = next_state;
                self.current_state.enter(&mut self.context);
            },
            None => (),
        }
    }
}

} // verus!
