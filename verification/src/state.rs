//! The game-mode state machine: Waiting → Playing → Spectating.
//!
//! Waiting lasts through world setup; Playing runs the full system set;
//! Spectating is entered on a collision and lets movement and animation
//! run on while the host shuts the session down. There is no way back.

use vstd::prelude::*;

verus! {

/// The game mode. Exactly one value is active at a time and it gates
/// which systems run each frame.
#[derive(Clone, Copy, Debug, PartialEq, Eq, Hash, Structural)]
pub enum AppState {
    Waiting,
    Playing,
    Spectating,
}

impl AppState {
    /// The modes in which the world simulates: movement, camera and
    /// animation run while Playing and while Spectating.
    pub open spec fn simulates(self) -> bool {
        self is Playing || self is Spectating
    }

    /// Only Playing runs input, scoring, pipe generation and collision.
    pub open spec fn accepts_input(self) -> bool {
        self is Playing
    }
}

/// How far along the one-directional Waiting → Playing → Spectating
/// chain a mode lies.
pub open spec fn mode_rank(s: AppState) -> int {
    match s {
        AppState::Waiting => 0,
        AppState::Playing => 1,
        AppState::Spectating => 2,
    }
}

/// The transition out of setup: once the world is built, play begins.
/// This is the only transition out of Waiting, and it moves forward
/// along the chain.
pub fn finish_setup(state: &mut AppState)
    requires
        *old(state) is Waiting,
    ensures
        *final(state) is Playing,
        mode_rank(*final(state)) > mode_rank(*old(state)),
{
    *state = AppState::Playing;
}

} // verus!
