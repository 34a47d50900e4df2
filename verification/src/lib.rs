//! A small finite-state-machine runtime.
//!
//! A machine owns exactly one current state value and one shared mutable
//! context. States implement [`StateBehavior`]: they decide the next state
//! for an incoming event and may run entry/exit side effects on the context.
//! The [`StateMachine`] engine enforces the exit -> commit -> enter protocol
//! on every state-driven transition.

pub mod behavior;
pub mod machine;
pub mod mario;
pub mod recorder;

pub use behavior::StateBehavior;
pub use machine::StateMachine;
