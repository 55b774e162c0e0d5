//! The lifecycle state machine: four states on a ladder, and the transitions
//! the host runtime may request. Every transition moves exactly one step, so a
//! request can never skip a state.

use vstd::prelude::*;

verus! {

/// Lifecycle state of an element. `Null` is the initial (and terminal-low)
/// state; `Playing` is terminal-high.
#[derive(Clone, Copy, Debug, PartialEq, Eq, Structural)]
pub enum ElementState {
    Null,
    Ready,
    Paused,
    Playing,
}

impl ElementState {
    /// Position of the state on the Null..Playing ladder.
    pub open spec fn rank(self) -> int {
        match self {
            ElementState::Null => 0,
            ElementState::Ready => 1,
            ElementState::Paused => 2,
            ElementState::Playing => 3,
        }
    }
}

/// A transition between two adjacent lifecycle states, as the host runtime
/// requests it. There is no variant that skips a state.
#[derive(Clone, Copy, Debug, PartialEq, Eq, Structural)]
pub enum StateChange {
    NullToReady,
    ReadyToPaused,
    PausedToPlaying,
    PlayingToPaused,
    PausedToReady,
    ReadyToNull,
}

impl StateChange {
    /// The state the transition leaves.
    pub open spec fn from_state(self) -> ElementState {
        match self {
            StateChange::NullToReady => ElementState::Null,
            StateChange::ReadyToPaused => ElementState::Ready,
            StateChange::PausedToPlaying => ElementState::Paused,
            StateChange::PlayingToPaused => ElementState::Playing,
            StateChange::PausedToReady => ElementState::Paused,
            StateChange::ReadyToNull => ElementState::Ready,
        }
    }

    /// The state the transition enters.
    pub open spec fn to_state(self) -> ElementState {
        match self {
            StateChange::NullToReady => ElementState::Ready,
            StateChange::ReadyToPaused => ElementState::Paused,
            StateChange::PausedToPlaying => ElementState::Playing,
            StateChange::PlayingToPaused => ElementState::Paused,
            StateChange::PausedToReady => ElementState::Ready,
            StateChange::ReadyToNull => ElementState::Null,
        }
    }

    /// Whether the transition climbs the ladder (towards `Playing`).
    pub open spec fn is_upward(self) -> bool {
        self.to_state().rank() == self.from_state().rank() + 1
    }

    /// The state the transition leaves, as a runtime value.
    pub fn source_state(self) -> (s: ElementState)
        ensures
            s == self.from_state(),
    {
        match self {
            StateChange::NullToReady => ElementState::Null,
            StateChange::ReadyToPaused => ElementState::Ready,
            StateChange::PausedToPlaying => ElementState::Paused,
            StateChange::PlayingToPaused => ElementState::Playing,
            StateChange::PausedToReady => ElementState::Paused,
            StateChange::ReadyToNull => ElementState::Ready,
        }
    }

    /// The state the transition enters, as a runtime value.
    pub fn target_state(self) -> (s: ElementState)
        ensures
            s == self.to_state(),
    {
        match self {
            StateChange::NullToReady => ElementState::Ready,
            StateChange::ReadyToPaused => ElementState::Paused,
            StateChange::PausedToPlaying => ElementState::Playing,
            StateChange::PlayingToPaused => ElementState::Paused,
            StateChange::PausedToReady => ElementState::Ready,
            StateChange::ReadyToNull => ElementState::Null,
        }
    }
}

/// Lifecycle transitions strictly alternate along the ladder: every
/// requestable transition moves exactly one rank up or one rank down, so no
/// request can skip a state.
pub proof fn lemma_transitions_are_adjacent(t: StateChange)
    ensures
        t.is_upward() || t.to_state().rank() == t.from_state().rank() - 1,
{
}

/// Success code of a lifecycle transition hook.
#[derive(Clone, Copy, Debug, PartialEq, Eq, Structural)]
pub enum StateChangeSuccess {
    Success,
}

/// A typed failure of a lifecycle transition hook: it halts the requested
/// transition, and the element keeps its prior state.
#[derive(Clone, Copy, Debug, PartialEq, Eq, Structural)]
pub enum StateChangeError {
    WrongState,
}

} // verus!
