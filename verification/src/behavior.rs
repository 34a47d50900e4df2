use vstd::prelude::*;

verus! {

/// The capability every state value of a machine must provide: decide the
/// next state for an incoming event, and optionally run entry/exit side
/// effects on the machine's shared context.
///
/// Each executable operation is pinned to a spec-level counterpart
/// (`next_state`, `context_after_handle`, `context_after_enter`,
/// `context_after_exit`), so that the engine's contracts can say exactly
/// which hooks ran, in which order, and what they did to the context.
///
/// The contract is total: an event with no defined mapping in the current
/// state resolves to "no transition" (`None` from `handle`), never to a
/// failure. Side effects go through the mutable context reference and no
/// other channel.
pub trait StateBehavior: Sized {
    /// The state type of the machine this behavior drives. For a type that
    /// is itself a machine state, this is `Self`.
    type State: Copy;

    /// The stimulus type the machine reacts to.
    type Event;

    /// The machine-wide mutable record shared by all states.
    type Context;

    /// The transition decision that `handle` returns for `event` in this
    /// state: the next state if a transition should occur, or `None` when
    /// the event is a no-op for this state.
    spec fn next_state(self, event: Self::Event, context: Self::Context) -> Option<Self::State>;

    /// The context exactly as `handle` leaves it.
    spec fn context_after_handle(self, event: Self::Event, context: Self::Context) -> Self::Context;

    /// The context exactly as `enter` leaves it.
    spec fn context_after_enter(self, context: Self::Context) -> Self::Context;

    /// The context exactly as `exit` leaves it.
    spec fn context_after_exit(self, context: Self::Context) -> Self::Context;

    /// Decide the next state for `event`, possibly mutating the context as
    /// a side effect. Returns the next state if a transition should occur,
    /// or `None` if the event is a no-op for this state.
    fn handle(&self, event: &Self::Event, context: &mut Self::Context) -> (next: Option<Self::State>)
        ensures
            next == self.next_state(*event, *old(context)),
            *final(context) == self.context_after_handle(*event, *old(context)),
    ;

    /// Entry hook: invoked exactly once when this state becomes current via
    /// a state-driven transition.
    fn enter(&self, context: &mut Self::Context)
        ensures
            *final(context) == self.context_after_enter(*old(context)),
    ;

    /// Exit hook: invoked exactly once when this state stops being current
    /// via a state-driven transition; it runs strictly before the state
    /// value is overwritten and before the new state's `enter`.
    fn exit(&self, context: &mut Self::Context)
        ensures
            *final(context) == self.context_after_exit(*old(context)),
    ;
}

} // verus!
