use vstd::prelude::*;

use crate::behavior::StateBehavior;
use crate::machine::StateMachine;

verus! {

/// The states of a small two-state machine whose only purpose is to make
/// the engine's hook protocol observable: its hooks write a record of every
/// `enter` and `exit` call into the context.
#[derive(Clone, Copy, PartialEq, Eq, Structural, Debug)]
pub enum Phase {
    Idle,
    Busy,
}

/// The stimuli of the recording machine. `Noise` has no defined mapping in
/// either state, so delivering it is always a no-op.
#[derive(Clone, Copy, PartialEq, Eq, Structural, Debug)]
pub enum Signal {
    Start,
    Stop,
    Noise,
}

/// One hook invocation, as recorded by the state that ran it.
#[derive(Clone, Copy, PartialEq, Eq, Structural, Debug)]
pub enum HookCall {
    Exited(Phase),
    Entered(Phase),
}

/// The recording machine's context: the first three hook invocations, in
/// the order they ran. Three slots are enough to show that one transition
/// runs exactly one `exit` followed by exactly one `enter` and nothing
/// else.
#[derive(Clone, Copy, Debug)]
pub struct HookLog {
    pub first: Option<HookCall>,
    pub second: Option<HookCall>,
    pub third: Option<HookCall>,
}

impl Default for HookLog {
    /// The initial context: no hook has run yet.
    fn default() -> (log: Self)
        ensures
            log == HookLog::empty(),
    {
        HookLog { first: None, second: None, third: None }
    }
}

impl HookLog {
    /// The log with no record in it.
    pub open spec fn empty() -> HookLog {
        HookLog { first: None, second: None, third: None }
    }

    /// The log with `call` appended in the first free slot; a fourth call
    /// is dropped.
    pub open spec fn appended(self, call: HookCall) -> HookLog {
        if self.first is None {
            HookLog { first: Some(call), second: self.second, third: self.third }
        } else if self.second is None {
            HookLog { first: self.first, second: Some(call), third: self.third }
        } else if self.third is None {
            HookLog { first: self.first, second: self.second, third: Some(call) }
        } else {
            self
        }
    }
}

/// Record one hook invocation in the first free slot of the log.
fn append_call(log: &mut HookLog, call: HookCall)
    ensures
        *final(log) == old(log).appended(call),
{
    if log.first.is_none() {
        log.first = Some(call);
    } else if log.second.is_none() {
        log.second = Some(call);
    } else if log.third.is_none() {
        log.third = Some(call);
    }
}

/// The recording machine: `Start` moves `Idle` to `Busy`, `Stop` moves
/// `Busy` back to `Idle`, and every other (state, signal) pair is a no-op.
pub type Recorder = StateMachine<Phase>;

impl StateBehavior for Phase {
    type State = Phase;
    type Event = Signal;
    type Context = HookLog;

    open spec fn next_state(self, event: Signal, context: HookLog) -> Option<Phase> {
        match (self, event) {
            (Phase::Idle, Signal::Start) => Some(Phase::Busy),
            (Phase::Busy, Signal::Stop) => Some(Phase::Idle),
            _ => None,
        }
    }

    open spec fn context_after_handle(self, event: Signal, context: HookLog) -> HookLog {
        context
    }

    open spec fn context_after_enter(self, context: HookLog) -> HookLog {
        context.appended(HookCall::Entered(self))
    }

    open spec fn context_after_exit(self, context: HookLog) -> HookLog {
        context.appended(HookCall::Exited(self))
    }

    fn handle(&self, event: &Signal, _context: &mut HookLog) -> (next: Option<Phase>) {
        match (self, event) {
            (Phase::Idle, Signal::Start) => Some(Phase::Busy),
            (Phase::Busy, Signal::Stop) => Some(Phase::Idle),
            _ => None,
        }
    }

    fn enter(&self, context: &mut HookLog) {
        append_call(context, HookCall::Entered(*self));
    }

    fn exit(&self, context: &mut HookLog) {
        append_call(context, HookCall::Exited(*self));
    }
}

} // verus!
