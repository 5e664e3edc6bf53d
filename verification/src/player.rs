//! The controlled actor: its discrete intent states and per-session record.

use vstd::prelude::*;

verus! {

/// Discrete intent states of the actor; several may be active at once, for
/// example walking while jumping.
#[allow(non_camel_case_types)]
#[derive(Clone, Copy, PartialEq, Eq, Structural, Debug)]
pub enum ActorState {
    IDLE,
    WALKING,
    JUMPING,
    INACTIVE,
}

/// The controlled actor: display name, active intent states, and whether it
/// rests on ground.
#[derive(Clone, Debug)]
pub struct Player {
    pub name: String,
    pub state: Vec<ActorState>,
    pub grounded: bool,
}

/// Whether an intent state is active in a state list.
pub fn has_state(states: &Vec<ActorState>, wanted: ActorState) -> (r: bool)
    ensures
        r == states@.contains(wanted),
{
    let mut i: usize = 0;
    while i < states.len()
        invariant
            0 <= i <= states@.len(),
            forall|j: int| 0 <= j < i ==> states@[j] != wanted,
        decreases states@.len() - i,
    {
        if states[i] == wanted {
            return true;
        }
        i = i + 1;
    }
    false
}

} // verus!
