use vstd::prelude::*;

use crate::behavior::StateBehavior;
use crate::machine::StateMachine;

verus! {

/// Consumables the character can pick up.
#[derive(Clone, Copy, PartialEq, Eq, Structural, Debug)]
pub enum MarioConsumables {
    Mushroom,
    Flower,
    Feather,
}

/// The character's size, tracked in the shared context.
#[derive(Clone, Copy, PartialEq, Eq, Structural, Debug)]
pub enum MarioSize {
    Small,
    Large,
}

/// The states of the game-character machine.
#[derive(Clone, Copy, PartialEq, Eq, Structural, Debug)]
pub enum MarioStates {
    DeadMario,
    SmallMario,
    SuperMario,
    FireMario,
    CapeMario,
}

/// The stimuli the character reacts to.
#[derive(Clone, Copy, PartialEq, Eq, Structural, Debug)]
pub enum Events {
    GetConsumable(MarioConsumables),
    Hit,
}

/// The machine-wide data shared by all states of the character machine.
#[derive(Clone, Copy, PartialEq, Eq, Structural, Debug)]
pub struct Context {
    pub size: MarioSize,
    pub alive: bool,
}

impl Default for Context {
    /// The initial context: a small, living character.
    fn default() -> (context: Self)
        ensures
            context.size == MarioSize::Small,
            context.alive,
    {
        Context { size: MarioSize::Small, alive: true }
    }
}

/// The game-character machine: power-ups move the character up the state
/// ladder, a hit drops it back to small, a second hit kills it, and a dead
/// character ignores every further event.
pub type Mario = StateMachine<MarioStates>;

impl StateBehavior for MarioStates {
    type State = MarioStates;
    type Event = Events;
    type Context = Context;

    open spec fn next_state(self, event: Events, context: Context) -> Option<MarioStates> {
        match (self, event) {
            (MarioStates::SmallMario, Events::GetConsumable(item)) => match item {
                MarioConsumables::Mushroom => Some(MarioStates::SuperMario),
                MarioConsumables::Flower => Some(MarioStates::FireMario),
                MarioConsumables::Feather => Some(MarioStates::CapeMario),
            },
            (MarioStates::SuperMario, Events::GetConsumable(item)) => match item {
                MarioConsumables::Flower => Some(MarioStates::FireMario),
                MarioConsumables::Feather => Some(MarioStates::CapeMario),
                _ => None,
            },
            (MarioStates::FireMario, Events::GetConsumable(item)) => match item {
                MarioConsumables::Feather => Some(MarioStates::CapeMario),
                _ => None,
            },
            (MarioStates::CapeMario, Events::GetConsumable(item)) => match item {
                MarioConsumables::Flower => Some(MarioStates::FireMario),
                _ => None,
            },
            (MarioStates::SmallMario, Events::Hit) => Some(MarioStates::DeadMario),
            (MarioStates::SuperMario, Events::Hit) => Some(MarioStates::SmallMario),
            (MarioStates::FireMario, Events::Hit) => Some(MarioStates::SmallMario),
            (MarioStates::CapeMario, Events::Hit) => Some(MarioStates::SmallMario),
            (MarioStates::DeadMario, _) => None,
        }
    }

    open spec fn context_after_handle(self, event: Events, context: Context) -> Context {
        context
    }

    open spec fn context_after_enter(self, context: Context) -> Context {
        match self {
            MarioStates::DeadMario => Context { size: context.size, alive: false },
            MarioStates::SmallMario => Context { size: MarioSize::Small, alive: context.alive },
            _ => Context { size: MarioSize::Large, alive: context.alive },
        }
    }

    open spec fn context_after_exit(self, context: Context) -> Context {
        context
    }

    fn handle(&self, event: &Events, _context: &mut Context) -> (next: Option<MarioStates>) {
        match (self, event) {
            (MarioStates::SmallMario, Events::GetConsumable(item)) => match item {
                MarioConsumables::Mushroom => Some(MarioStates::SuperMario),
                MarioConsumables::Flower => Some(MarioStates::FireMario),
                MarioConsumables::Feather => Some(MarioStates::CapeMario),
            },
            (MarioStates::SuperMario, Events::GetConsumable(item)) => match item {
                MarioConsumables::Flower => Some(MarioStates::FireMario),
                MarioConsumables::Feather => Some(MarioStates::CapeMario),
                _ => None,
            },
            (MarioStates::FireMario, Events::GetConsumable(item)) => match item {
                MarioConsumables::Feather => Some(MarioStates::CapeMario),
                _ => None,
            },
            (MarioStates::CapeMario, Events::GetConsumable(item)) => match item {
                MarioConsumables::Flower => Some(MarioStates::FireMario),
                _ => None,
            },
            (MarioStates::SmallMario, Events::Hit) => Some(MarioStates::DeadMario),
            (MarioStates::SuperMario, Events::Hit) => Some(MarioStates::SmallMario),
            (MarioStates::FireMario, Events::Hit) => Some(MarioStates::SmallMario),
            (MarioStates::CapeMario, Events::Hit) => Some(MarioStates::SmallMario),
            (MarioStates::DeadMario, _) => None,
        }
    }

    fn enter(&self, context: &mut Context) {
        match self {
            MarioStates::DeadMario => context.alive = false,
            MarioStates::SmallMario => context.size = MarioSize::Small,
            _ => context.size = MarioSize::Large,
        }
    }

    fn exit(&self, _context: &mut Context) {
    }
}

} // verus!
