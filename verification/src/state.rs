//! The state layer's own views of the runtime that the library's decisions
//! read.
use vstd::prelude::*;

verus! {

/// A profile slot card's interaction state as the state layer tracks it.
#[derive(Clone, Copy, Debug, PartialEq, Eq, Structural)]
pub enum SlotState {
    Idle,
    Hovered,
    Active,
}

/// The part of the runtime's snapshot the header's status dot reads.
#[derive(Clone, Copy, Debug, PartialEq, Eq, Structural)]
pub struct RuntimeStatus {
    /// Whether the SOCD filter is on.
    pub filter_enabled: bool,
    /// Whether an input-timing measurement is running.
    pub measurement_active: bool,
    /// Whether a key capture is waiting for a press.
    pub capturing: bool,
}

} // verus!
