//! The profile overlay's decisions.
use vstd::prelude::*;

use crate::state::SlotState;
use crate::theme;

verus! {

/// The token module's state for a card in the state layer's state: the two
/// enums carry the same three-state contract.
pub open spec fn theme_state_of(state: SlotState) -> theme::SlotState {
    match state {
        SlotState::Idle => theme::SlotState::Idle,
        SlotState::Hovered => theme::SlotState::Hovered,
        SlotState::Active => theme::SlotState::Active,
    }
}

/// Bridges the state layer's [`SlotState`] to the token module's
/// [`theme::SlotState`].
pub fn theme_slot_state(state: SlotState) -> (r: theme::SlotState)
    ensures
        r == theme_state_of(state),
{
    match state {
        SlotState::Idle => theme::SlotState::Idle,
        SlotState::Hovered => theme::SlotState::Hovered,
        SlotState::Active => theme::SlotState::Active,
    }
}

/// The bridge is one to one: distinct states stay distinct.
pub proof fn the_bridge_is_one_to_one(a: SlotState, b: SlotState)
    ensures
        theme_state_of(a) == theme_state_of(b) ==> a == b,
{
}

} // verus!
