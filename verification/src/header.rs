//! The header's status dot: which of its four states shows, and its inks.
use vstd::prelude::*;

use crate::state::RuntimeStatus;
use crate::theme;
use crate::theme::Color;

verus! {

/// The status dot's four states: the engine-off or disconnected grey, the
/// measuring amber pulse, the rebinding indigo ping, and the synchronized
/// emerald.
#[derive(Clone, Copy, Debug, PartialEq, Eq, Structural)]
pub enum DotState {
    Idle,
    Measuring,
    Rebinding,
    Synced,
}

/// The precedence: the inactive state wins, then measuring, then rebinding.
/// A disconnected runtime counts as inactive, because no engine status can be
/// trusted without a connection.
pub open spec fn dot_state_of(connected: bool, snapshot: Option<RuntimeStatus>) -> DotState {
    match snapshot {
        Some(s) if connected && s.filter_enabled => if s.measurement_active {
            DotState::Measuring
        } else if s.capturing {
            DotState::Rebinding
        } else {
            DotState::Synced
        },
        _ => DotState::Idle,
    }
}

/// The dot and ring inks at rest, per state.
pub open spec fn dot_ink(state: DotState) -> (Color, Color) {
    match state {
        DotState::Idle => (theme::SLATE_300, theme::SLATE_100),
        DotState::Measuring => (theme::AMBER_500, theme::AMBER_100),
        DotState::Rebinding => (theme::INDIGO_500, theme::INDIGO_100),
        DotState::Synced => (theme::EMERALD_500, theme::EMERALD_100),
    }
}

impl DotState {
    /// The state the dot shows for the runtime's connection and snapshot.
    pub fn of(connected: bool, snapshot: Option<RuntimeStatus>) -> (r: DotState)
        ensures
            r == dot_state_of(connected, snapshot),
    {
        let engine_on = connected && match snapshot {
            Some(s) => s.filter_enabled,
            None => false,
        };
        if !engine_on {
            DotState::Idle
        } else if match snapshot {
            Some(s) => s.measurement_active,
            None => false,
        } {
            DotState::Measuring
        } else if match snapshot {
            Some(s) => s.capturing,
            None => false,
        } {
            DotState::Rebinding
        } else {
            DotState::Synced
        }
    }

    /// The dot and ring inks at rest (`bg-*-500 ring-*-100`).
    pub fn ink(self) -> (r: (Color, Color))
        ensures
            r == dot_ink(self),
    {
        match self {
            DotState::Idle => (theme::SLATE_300, theme::SLATE_100),
            DotState::Measuring => (theme::AMBER_500, theme::AMBER_100),
            DotState::Rebinding => (theme::INDIGO_500, theme::INDIGO_100),
            DotState::Synced => (theme::EMERALD_500, theme::EMERALD_100),
        }
    }

    /// Whether the state animates (the pulse and the ping) and so keeps
    /// requesting frames.
    pub fn animating(self) -> (r: bool)
        ensures
            r == (self == DotState::Measuring || self == DotState::Rebinding),
    {
        match self {
            DotState::Measuring | DotState::Rebinding => true,
            DotState::Idle | DotState::Synced => false,
        }
    }
}

/// Measuring wins over rebinding, and an engine that is off or out of reach
/// wins over both.
pub proof fn the_dot_follows_its_precedence(connected: bool, s: RuntimeStatus)
    ensures
        !connected ==> dot_state_of(connected, Some(s)) == DotState::Idle,
        !s.filter_enabled ==> dot_state_of(connected, Some(s)) == DotState::Idle,
        dot_state_of(connected, None) == DotState::Idle,
        connected && s.filter_enabled && s.measurement_active ==> dot_state_of(connected, Some(s))
            == DotState::Measuring,
        connected && s.filter_enabled && !s.measurement_active && s.capturing ==> dot_state_of(
            connected,
            Some(s),
        ) == DotState::Rebinding,
{
}

} // verus!
